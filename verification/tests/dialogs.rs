//! The dialog wrappers, driven against the modelled native layer: the
//! initialization gate, handle accounting, scripted failures and the
//! user-facing read-backs.

use nvdialog_rs::about_dialog::AboutDialog;
use nvdialog_rs::dialog_box::{DialogBox, DialogType};
use nvdialog_rs::file_dialog::{build_filter, FileDialog, FileDialogType};
use nvdialog_rs::image::{Image, ImageError};
use nvdialog_rs::input_box::InputBox;
use nvdialog_rs::notification::{Notification, NotificationKind};
use nvdialog_rs::object::Object;
use nvdialog_rs::question_dialog::{QuestionDialog, QuestionDialogButtons, Reply};
use nvdialog_rs::{init, set_app_name, Error, NativeLayer};

fn ready_layer() -> NativeLayer {
    let mut host = NativeLayer::new();
    init(&mut host).unwrap();
    host
}

#[test]
fn init_succeeds_once_then_reports_already_initialized() {
    let mut host = NativeLayer::new();
    assert!(!host.initialized);
    assert_eq!(init(&mut host), Ok(()));
    assert!(host.initialized);
    assert_eq!(init(&mut host), Err(Error::AlreadyInitialized));
    assert!(host.initialized);
}

#[test]
fn every_creation_before_init_reports_not_initialized() {
    let mut host = NativeLayer::new();
    let r = DialogBox::new(&mut host, b"t".to_vec(), b"m".to_vec(), DialogType::Simple);
    assert_eq!(r.unwrap_err(), Error::NotYetInitialized);
    let r = QuestionDialog::new(
        &mut host,
        b"t".to_vec(),
        b"m".to_vec(),
        QuestionDialogButtons::YesNo,
    );
    assert_eq!(r.unwrap_err(), Error::NotYetInitialized);
    let r = InputBox::new(&mut host, b"t".to_vec(), b"p".to_vec());
    assert_eq!(r.unwrap_err(), Error::NotYetInitialized);
    let r = Notification::new(&mut host, b"t".to_vec(), b"m".to_vec(), NotificationKind::Simple);
    assert_eq!(r.unwrap_err(), Error::NotYetInitialized);
    let r = FileDialog::new(&mut host, b"t".to_vec(), FileDialogType::OpenFile, Vec::new());
    assert_eq!(r.unwrap_err(), Error::NotYetInitialized);
    let mut about = AboutDialog::new().name(b"app".to_vec());
    assert_eq!(about.build(&mut host), Err(Error::NotYetInitialized));
    // nothing was allocated by any refused creation
    assert_eq!(host.allocs, 0);
    assert_eq!(host.live.len(), 0);
}

#[test]
fn construct_then_release_leaves_no_allocation_behind() {
    let mut host = ready_layer();
    let mut dialog = DialogBox::new(
        &mut host,
        "héllo".as_bytes().to_vec(),
        "wörld".as_bytes().to_vec(),
        DialogType::Simple,
    )
    .unwrap();
    assert_eq!(host.allocs, 1);
    assert_eq!(host.frees, 0);
    assert_eq!(host.live.len(), 1);
    assert!(host.live.contains(&dialog.raw));
    dialog.release(&mut host);
    assert_eq!(host.allocs, 1);
    assert_eq!(host.frees, 1);
    assert_eq!(host.live.len(), 0);
    assert!(!dialog.live);
}

#[test]
fn every_dialog_kind_frees_exactly_once() {
    let mut host = ready_layer();
    let mut dialog =
        DialogBox::new(&mut host, b"t".to_vec(), b"m".to_vec(), DialogType::Warning).unwrap();
    let mut question = QuestionDialog::new(
        &mut host,
        b"t".to_vec(),
        b"q".to_vec(),
        QuestionDialogButtons::YesNoCancel,
    )
    .unwrap();
    let mut input = InputBox::new(&mut host, b"t".to_vec(), b"p".to_vec()).unwrap();
    let mut note =
        Notification::new(&mut host, b"t".to_vec(), b"m".to_vec(), NotificationKind::Error)
            .unwrap();
    let mut files =
        FileDialog::new(&mut host, b"t".to_vec(), FileDialogType::SaveFile, Vec::new()).unwrap();
    let mut image = Image::from_data(&mut host, &vec![0u8; 16], 2, 2).unwrap();
    let mut about = AboutDialog::new().name(b"app".to_vec()).version(b"1.0".to_vec());
    about.build(&mut host).unwrap();
    assert_eq!(host.allocs, 7);
    assert_eq!(host.live.len(), 7);

    dialog.release(&mut host);
    question.release(&mut host);
    input.release(&mut host);
    note.release(&mut host);
    files.release(&mut host);
    image.release(&mut host);
    about.release(&mut host);
    assert_eq!(host.allocs, 7);
    assert_eq!(host.frees, 7);
    assert_eq!(host.live.len(), 0);
}

#[test]
fn file_dialog_null_selection_is_no_selection_not_an_error() {
    let mut host = ready_layer();
    let mut dialog =
        FileDialog::new(&mut host, b"pick".to_vec(), FileDialogType::OpenFile, Vec::new())
            .unwrap();
    // the simulated native layer reports a null selection by default
    assert!(host.file_selection.is_none());
    assert_eq!(dialog.retrieve_filename(&host), None);
    assert_eq!(dialog.location_chosen, None);

    host.set_file_selection(Some(b"/tmp/picked.txt".to_vec()));
    let chosen = dialog.retrieve_filename(&host);
    assert_eq!(chosen, Some(b"/tmp/picked.txt".to_vec()));
    assert_eq!(dialog.location_chosen, Some(b"/tmp/picked.txt".to_vec()));
    dialog.release(&mut host);
}

#[test]
fn scripted_creation_failure_surfaces_its_error() {
    let mut host = ready_layer();
    host.set_create_failure(Some(Error::BackendFailed));
    let r = DialogBox::new(&mut host, b"t".to_vec(), b"m".to_vec(), DialogType::Simple);
    assert_eq!(r.unwrap_err(), Error::BackendFailed);
    let r = QuestionDialog::new(&mut host, b"t".to_vec(), b"m".to_vec(), QuestionDialogButtons::Yes);
    assert_eq!(r.unwrap_err(), Error::BackendFailed);
    // the native notification constructor reports only a null pointer, so
    // its wrapper can say no more than out-of-memory
    let r = Notification::new(&mut host, b"t".to_vec(), b"m".to_vec(), NotificationKind::Simple);
    assert_eq!(r.unwrap_err(), Error::OutOfMemory);
    let r = Image::from_data(&mut host, &vec![0u8; 8], 1, 2);
    assert_eq!(r.unwrap_err(), ImageError::UnknownError);
    assert_eq!(host.allocs, 0);

    host.set_create_failure(None);
    let mut d =
        DialogBox::new(&mut host, b"t".to_vec(), b"m".to_vec(), DialogType::Simple).unwrap();
    assert_eq!(host.allocs, 1);
    d.release(&mut host);
}

#[test]
fn embedded_nul_in_text_is_a_typed_error() {
    let mut host = ready_layer();
    let r = DialogBox::new(&mut host, b"ti\0tle".to_vec(), b"m".to_vec(), DialogType::Simple);
    assert_eq!(r.unwrap_err(), Error::EmbeddedNull);
    let r = DialogBox::new(&mut host, b"t".to_vec(), b"m\0sg".to_vec(), DialogType::Simple);
    assert_eq!(r.unwrap_err(), Error::EmbeddedNull);
    let r = QuestionDialog::new(
        &mut host,
        b"\0".to_vec(),
        b"q".to_vec(),
        QuestionDialogButtons::YesNo,
    );
    assert_eq!(r.unwrap_err(), Error::EmbeddedNull);
    let r = InputBox::new(&mut host, b"t".to_vec(), b"p\0".to_vec());
    assert_eq!(r.unwrap_err(), Error::EmbeddedNull);
    let r = Notification::new(
        &mut host,
        b"t\0".to_vec(),
        b"m".to_vec(),
        NotificationKind::Warning,
    );
    assert_eq!(r.unwrap_err(), Error::EmbeddedNull);
    let r = FileDialog::new(
        &mut host,
        b"t".to_vec(),
        FileDialogType::OpenFile,
        vec![b"png".to_vec(), b"jp\0g".to_vec()],
    );
    assert_eq!(r.unwrap_err(), Error::EmbeddedNull);
    let mut about = AboutDialog::new().name(b"a\0pp".to_vec());
    assert_eq!(about.build(&mut host), Err(Error::EmbeddedNull));
    // nothing was allocated by any refused creation
    assert_eq!(host.allocs, 0);
}

#[test]
fn filter_encoding_joins_with_semicolon_and_nul() {
    let exts = vec![b"png".to_vec(), b"jpg".to_vec()];
    assert_eq!(build_filter(&exts), b"png;\0jpg;\0".to_vec());
    assert_eq!(build_filter(&Vec::new()), Vec::<u8>::new());

    let mut host = ready_layer();
    let mut dialog =
        FileDialog::new(&mut host, b"open".to_vec(), FileDialogType::OpenFile, exts).unwrap();
    assert_eq!(dialog.filter, b"png;\0jpg;\0".to_vec());
    dialog.release(&mut host);

    // a save dialog takes a suggested filename, not a filter
    let mut dialog = FileDialog::new(
        &mut host,
        b"save".to_vec(),
        FileDialogType::SaveFile,
        vec![b"png".to_vec()],
    )
    .unwrap();
    assert_eq!(dialog.filter, Vec::<u8>::new());
    dialog.release(&mut host);
}

#[test]
fn reply_maps_known_codes_and_falls_back_to_cancelled() {
    assert_eq!(Reply::from(0x04), Reply::Accepted);
    assert_eq!(Reply::from(0x05), Reply::Cancelled);
    assert_eq!(Reply::from(0x06), Reply::Rejected);
    assert_eq!(Reply::from(0), Reply::Cancelled);
    assert_eq!(Reply::from(9999), Reply::Cancelled);
}

#[test]
fn question_dialog_reads_back_the_scripted_reply() {
    let mut host = ready_layer();
    let mut question = QuestionDialog::new(
        &mut host,
        b"sure?".to_vec(),
        b"really?".to_vec(),
        QuestionDialogButtons::YesNo,
    )
    .unwrap();
    host.set_reply_code(0x04);
    assert_eq!(question.get_reply(&host), Reply::Accepted);
    host.set_reply_code(0x06);
    assert_eq!(question.get_reply(&host), Reply::Rejected);
    host.set_reply_code(77);
    assert_eq!(question.get_reply(&host), Reply::Cancelled);
    question.release(&mut host);
}

#[test]
fn native_codes_of_the_enums() {
    assert_eq!(DialogType::Simple.code(), 0xff);
    assert_eq!(DialogType::Warning.code(), 0x100);
    assert_eq!(DialogType::Error.code(), 0x101);
    assert_eq!(QuestionDialogButtons::Yes.code(), 0x04);
    assert_eq!(QuestionDialogButtons::YesNo.code(), 0x05);
    assert_eq!(QuestionDialogButtons::YesNoCancel.code(), 0x06);
    assert_eq!(NotificationKind::Simple.code(), 0);
    assert_eq!(NotificationKind::Warning.code(), 1);
    assert_eq!(NotificationKind::Error.code(), 2);
}

#[test]
fn input_box_hands_back_the_typed_text() {
    let mut host = ready_layer();
    let mut input = InputBox::new(&mut host, b"name?".to_vec(), b"type it".to_vec()).unwrap();
    assert!(input.get_input().is_none());
    host.set_input_text("héllo".as_bytes().to_vec());
    input.display(&mut host);
    assert_eq!(host.displays, 1);
    let typed = input.get_input().unwrap();
    assert_eq!(typed.as_str(), "héllo".as_bytes());
    input.release(&mut host);
}

#[test]
fn app_name_defaults_non_empty_and_can_be_set() {
    let mut host = NativeLayer::new();
    assert_eq!(host.app_name, b"NvDialog Application".to_vec());
    set_app_name(&mut host, b"My App".to_vec());
    assert_eq!(host.app_name, b"My App".to_vec());
}

#[test]
fn notification_sends_each_time_and_records_actions() {
    let mut host = ready_layer();
    let mut note =
        Notification::new(&mut host, b"hi".to_vec(), b"there".to_vec(), NotificationKind::Simple)
            .unwrap();
    note.add_action(b"open".to_vec(), 7);
    note.add_action(b"dismiss".to_vec(), -1);
    assert_eq!(note.actions.len(), 2);
    assert_eq!(note.actions[0], (b"open".to_vec(), 7));
    assert_eq!(note.actions[1], (b"dismiss".to_vec(), -1));
    note.send(&mut host);
    note.send(&mut host);
    assert_eq!(host.displays, 2);
    note.release(&mut host);
}

#[test]
fn image_from_data_validates_before_the_native_call() {
    let mut host = ready_layer();
    let r = Image::from_data(&mut host, &vec![1u8], 1, 1);
    assert_eq!(r.unwrap_err(), ImageError::ReadingError);
    let r = Image::from_data(&mut host, &vec![1u8; 6], 1, 1);
    assert_eq!(r.unwrap_err(), ImageError::InvalidFormat);
    let mut image = Image::from_data(&mut host, &vec![1u8; 8], 2, 1).unwrap();
    assert_eq!((image.width, image.height), (2, 1));
    assert_eq!(host.allocs, 1);
    image.release(&mut host);
    assert_eq!(host.frees, 1);
}

#[test]
fn about_dialog_builder_configures_then_builds() {
    let mut host = ready_layer();
    let mut about = AboutDialog::new()
        .name(b"Demo".to_vec())
        .description(b"A short description".to_vec())
        .version(b"0.1.0".to_vec());
    assert_eq!(about.app_name, b"Demo".to_vec());
    assert_eq!(about.details, b"A short description".to_vec());
    assert_eq!(about.version, b"0.1.0".to_vec());
    assert!(!about.live);
    about.build(&mut host).unwrap();
    assert!(about.live);
    about.show(&mut host);
    assert_eq!(host.displays, 1);
    about.release(&mut host);
    assert_eq!(host.frees, 1);
}

#[test]
fn about_dialog_can_carry_an_icon() {
    let mut host = ready_layer();
    let image = Image::from_data(&mut host, &vec![0u8; 4], 1, 1).unwrap();
    let mut about = AboutDialog::new().name(b"Demo".to_vec()).icon(image);
    about.build(&mut host).unwrap();
    assert_eq!(host.allocs, 2);
    about.release(&mut host);
    let mut icon = about.icon.take().unwrap();
    icon.release(&mut host);
    assert_eq!(host.frees, 2);
    assert_eq!(host.live.len(), 0);
}

#[test]
fn object_trait_drives_question_dialog_and_input_box() {
    let mut host = ready_layer();
    let mut question = QuestionDialog::new(
        &mut host,
        b"t".to_vec(),
        b"q".to_vec(),
        QuestionDialogButtons::YesNoCancel,
    )
    .unwrap();
    host.set_reply_code(0x06);
    assert_eq!(question.get_raw(), question.raw);
    assert_eq!(Object::show(&mut question, &mut host), Reply::Rejected);
    Object::free(&mut question, &mut host);
    assert!(!question.live);

    host.set_input_text(b"typed".to_vec());
    let mut input = InputBox::new(&mut host, b"t".to_vec(), b"p".to_vec()).unwrap();
    Object::show(&mut input, &mut host);
    assert_eq!(input.get_input().unwrap().as_str(), b"typed");
    Object::free(&mut input, &mut host);
    assert_eq!(host.frees, 2);
    assert_eq!(host.live.len(), 0);
}

#[test]
fn show_counts_every_presentation() {
    let mut host = ready_layer();
    let mut dialog =
        DialogBox::new(&mut host, b"t".to_vec(), b"m".to_vec(), DialogType::Simple).unwrap();
    dialog.set_accept_label(b"Fine".to_vec());
    assert_eq!(dialog.accept_label, Some(b"Fine".to_vec()));
    dialog.show(&mut host);
    dialog.show(&mut host);
    assert_eq!(host.displays, 2);
    dialog.release(&mut host);
}
