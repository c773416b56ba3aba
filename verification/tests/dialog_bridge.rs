use dialog_bridge::bridge::BridgeState;
use dialog_bridge::bridge::DialogRequest;
use dialog_bridge::bridge::EventLoopBridge;
use dialog_bridge::bridge::WindowHandle;
use dialog_bridge::dialog::eq_ignore_case;
use dialog_bridge::dialog::FileDialogOptions;
use dialog_bridge::dialog::FileDialogType;
use dialog_bridge::dialog::FileInfo;
use dialog_bridge::dialog::FileSpec;
use dialog_bridge::dispatcher::ResultDispatcher;
use dialog_bridge::driver::from_native;
use dialog_bridge::driver::normalize_outcome;
use dialog_bridge::driver::to_native;
use dialog_bridge::driver::translate_filters;
use dialog_bridge::driver::DialogResult;
use dialog_bridge::driver::NativeOutcome;

fn open_request() -> DialogRequest {
    DialogRequest {
        kind: FileDialogType::Open,
        options: FileDialogOptions::new(),
        owner_window: WindowHandle { id: 1 },
    }
}

#[test]
fn options_default() {
    let o = FileDialogOptions::new();
    assert_eq!(o.show_hidden, false);
    assert!(o.allowed_types.is_none());
}

#[test]
fn options_builder_show_hidden() {
    let o = FileDialogOptions::new().show_hidden();
    assert_eq!(o.show_hidden, true);
    assert!(o.allowed_types.is_none());
}

#[test]
fn options_builder_allowed_types() {
    let o = FileDialogOptions::new().allowed_types(vec![FileSpec::pdf(), FileSpec::text()]);
    assert_eq!(o.show_hidden, false);
    let types = o.allowed_types.unwrap();
    assert_eq!(types.len(), 2);
    assert_eq!(types[0].name, "PDF");
    assert_eq!(types[1].name, "Text");
}

#[test]
fn predefined_filters() {
    let t = FileSpec::text();
    assert_eq!(t.name, "Text");
    assert_eq!(t.extensions, vec!["txt".to_string()]);
    let j = FileSpec::jpg();
    assert_eq!(j.name, "Jpeg");
    assert_eq!(j.extensions, vec!["jpg".to_string(), "jpeg".to_string()]);
    let g = FileSpec::gif();
    assert_eq!(g.name, "Gif");
    assert_eq!(g.extensions, vec!["gif".to_string()]);
    let p = FileSpec::pdf();
    assert_eq!(p.name, "PDF");
    assert_eq!(p.extensions, vec!["pdf".to_string()]);
    let h = FileSpec::html();
    assert_eq!(h.name, "Web Page");
    assert_eq!(h.extensions, vec!["htm".to_string(), "html".to_string()]);
}

#[test]
fn file_spec_new_keeps_fields() {
    let s = FileSpec::new("Word Document".to_string(), vec!["doc".to_string()]);
    assert_eq!(s.name, "Word Document");
    assert_eq!(s.extensions, vec!["doc".to_string()]);
}

#[test]
fn extension_compare_ignores_ascii_case() {
    assert!(eq_ignore_case("PDF", "pdf"));
    assert!(eq_ignore_case("JpG", "jPg"));
    assert!(eq_ignore_case("", ""));
    assert!(!eq_ignore_case("pdf", "pd"));
    assert!(!eq_ignore_case("pdf", "png"));
}

#[test]
fn filter_matches_extension_case_insensitively() {
    let j = FileSpec::jpg();
    assert!(j.matches_extension("JPEG"));
    assert!(j.matches_extension("jpg"));
    assert!(!j.matches_extension("png"));
    assert!(!j.matches_extension("jp"));
}

#[test]
fn file_info_path() {
    let f = FileInfo::new("/home/me/notes.txt".to_string());
    assert_eq!(f.path(), "/home/me/notes.txt");
}

#[test]
fn normalize_success_is_selected() {
    let r = normalize_outcome(NativeOutcome::Success("/tmp/a.txt".to_string()));
    assert!(matches!(r, DialogResult::Selected(ref p) if p == "/tmp/a.txt"));
}

#[test]
fn normalize_empty_path_is_cancelled() {
    let r = normalize_outcome(NativeOutcome::Success(String::new()));
    assert!(matches!(r, DialogResult::Cancelled));
}

#[test]
fn normalize_cancel_is_cancelled() {
    let r = normalize_outcome(NativeOutcome::Cancelled);
    assert!(matches!(r, DialogResult::Cancelled));
}

#[test]
fn normalize_failure_is_cancelled() {
    let r = normalize_outcome(NativeOutcome::Failure("picker crashed".to_string()));
    assert!(matches!(r, DialogResult::Cancelled));
}

#[test]
fn filter_translation_shapes_globs() {
    let n = to_native(&FileSpec::jpg());
    assert_eq!(n.label, "Jpeg");
    assert_eq!(n.patterns, vec!["*.jpg".to_string(), "*.jpeg".to_string()]);
}

#[test]
fn filter_round_trip_pdf_text() {
    let o = FileDialogOptions::new().allowed_types(vec![FileSpec::pdf(), FileSpec::text()]);
    let types = o.allowed_types.unwrap();
    let natives = translate_filters(&types);
    assert_eq!(natives.len(), 2);
    let back: Vec<_> = natives.iter().map(from_native).collect();
    assert_eq!(back[0].display_name, "PDF");
    assert_eq!(back[0].extensions, vec!["pdf".to_string()]);
    assert_eq!(back[1].display_name, "Text");
    assert_eq!(back[1].extensions, vec!["txt".to_string()]);
}

#[test]
fn open_cancel_delivers_cancelled_once() {
    let mut b = EventLoopBridge::new(7);
    b.submit(open_request(), true);
    assert_eq!(b.state(), BridgeState::Issued);
    let req = b.take_native_call();
    assert_eq!(req.kind, FileDialogType::Open);
    assert_eq!(req.options.show_hidden, false);
    assert!(req.options.allowed_types.is_none());
    b.native_callback(NativeOutcome::Cancelled, 7);
    b.dispatch();
    assert_eq!(b.state(), BridgeState::Delivered);
    assert_eq!(b.native_call_count(), 1);
    let d = b.delivery().as_ref().expect("one delivery");
    assert!(matches!(d.result, DialogResult::Cancelled));
    assert_eq!(d.thread, 7);
    assert!(!b.double_delivery_detected());
}

#[test]
fn save_with_pdf_filter_delivers_selected_path() {
    let mut b = EventLoopBridge::new(4);
    let req = DialogRequest {
        kind: FileDialogType::Save,
        options: FileDialogOptions::new().allowed_types(vec![FileSpec::pdf()]),
        owner_window: WindowHandle { id: 9 },
    };
    b.submit(req, true);
    let req = b.take_native_call();
    assert_eq!(req.kind, FileDialogType::Save);
    let types = req.options.allowed_types.as_ref().expect("filter kept");
    assert_eq!(types[0].name, "PDF");
    b.native_callback(NativeOutcome::Success("/tmp/out.pdf".to_string()), 4);
    b.dispatch();
    assert_eq!(b.state(), BridgeState::Delivered);
    let d = b.delivery().as_ref().expect("one delivery");
    assert!(matches!(d.result, DialogResult::Selected(ref p) if p == "/tmp/out.pdf"));
    assert_eq!(d.thread, 4);
}

#[test]
fn dead_owner_is_cancelled_without_native_call() {
    let mut b = EventLoopBridge::new(2);
    b.submit(open_request(), false);
    assert_eq!(b.state(), BridgeState::Aborted);
    assert_eq!(b.native_call_count(), 0);
    let d = b.delivery().as_ref().expect("cancellation delivered");
    assert!(matches!(d.result, DialogResult::Cancelled));
    assert_eq!(d.thread, 2);
}

#[test]
fn cross_thread_callback_delivers_on_owner_thread() {
    let mut b = EventLoopBridge::new(7);
    b.submit(open_request(), true);
    let _ = b.take_native_call();
    // the native callback fires on a simulated non-owner thread
    b.native_callback(NativeOutcome::Success("/tmp/a".to_string()), 99);
    assert_eq!(b.state(), BridgeState::ResultReady);
    // the result was marshaled; the owner loop pumps the delivery
    b.dispatch();
    let d = b.delivery().as_ref().expect("one delivery");
    assert_eq!(d.thread, 7);
    assert_ne!(d.thread, 99);
}

#[test]
fn double_callback_is_absorbed() {
    let mut b = EventLoopBridge::new(1);
    b.submit(open_request(), true);
    let _ = b.take_native_call();
    b.native_callback(NativeOutcome::Success("/tmp/x".to_string()), 5);
    // a malformed backend fires its callback a second time
    b.native_callback(NativeOutcome::Success("/tmp/y".to_string()), 5);
    b.dispatch();
    b.dispatch();
    assert_eq!(b.state(), BridgeState::Delivered);
    let d = b.delivery().as_ref().expect("one delivery");
    assert!(matches!(d.result, DialogResult::Selected(ref p) if p == "/tmp/x"));
}

#[test]
fn dispatcher_absorbs_double_delivery() {
    let mut d = ResultDispatcher::new();
    d.complete(DialogResult::Selected("/tmp/first".to_string()), 3);
    d.complete(DialogResult::Selected("/tmp/second".to_string()), 8);
    let del = d.delivered().as_ref().expect("exactly one delivery");
    assert!(matches!(del.result, DialogResult::Selected(ref p) if p == "/tmp/first"));
    assert_eq!(del.thread, 3);
    assert!(d.double_delivery_detected());
}

#[test]
fn dispatcher_abort_drops_continuation() {
    let mut d = ResultDispatcher::new();
    d.abort();
    assert!(d.delivered().is_none());
    // a result arriving after the abort is absorbed silently
    d.complete(DialogResult::Cancelled, 3);
    assert!(d.delivered().is_none());
}

#[test]
fn abort_midflight_discards_late_result() {
    let mut b = EventLoopBridge::new(6);
    b.submit(open_request(), true);
    let _ = b.take_native_call();
    // the owner window is destroyed while the native call is out
    b.owner_destroyed();
    assert_eq!(b.state(), BridgeState::Aborted);
    // the uncancelable native call eventually reports back
    b.native_callback(NativeOutcome::Success("/tmp/late".to_string()), 6);
    b.dispatch();
    assert_eq!(b.state(), BridgeState::Aborted);
    assert!(b.delivery().is_none());
}

#[test]
fn destroyed_after_delivery_changes_nothing() {
    let mut b = EventLoopBridge::new(5);
    b.submit(open_request(), true);
    let _ = b.take_native_call();
    b.native_callback(NativeOutcome::Cancelled, 5);
    b.dispatch();
    assert_eq!(b.state(), BridgeState::Delivered);
    b.owner_destroyed();
    assert_eq!(b.state(), BridgeState::Delivered);
    let d = b.delivery().as_ref().expect("delivery kept");
    assert!(matches!(d.result, DialogResult::Cancelled));
}
