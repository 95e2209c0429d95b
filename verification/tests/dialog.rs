use gtk_file_dialog::chooser::{
    build_gtk_dialog, GtkFileChooserAction, RESPONSE_ACCEPT, RESPONSE_CANCEL,
};
use gtk_file_dialog::filter::{
    add_filters, filter_group, native_pattern, native_text, DialogOptions, Filter,
};
use gtk_file_dialog::lifecycle::{init_check, wait_for_cleanup};
use gtk_file_dialog::session::{
    dialog_setup, pick_file, pick_files, pick_folder, save_file, Action, DialogSetup, Event,
    Operation, Selection, Session, Stage, Teardown,
};
use gtk_file_dialog::signal::{connect_response, connection_made};
use gtk_file_dialog::text::{get_result, get_results};

fn filter(name: &str, extensions: &[&str]) -> Filter {
    Filter {
        name: name.to_string(),
        extensions: extensions.iter().map(|e| e.to_string()).collect(),
    }
}

fn sample_options() -> DialogOptions {
    DialogOptions {
        filters: vec![
            filter("Images", &["png", "jpg"]),
            filter("Text", &["txt"]),
            filter("Anything", &[]),
        ],
    }
}

/// A stand-in for the toolkit that counts what it is asked to do.
struct Toolkit {
    init_status: i32,
    response: i32,
    filename: Vec<u8>,
    filenames: Vec<Vec<u8>>,
    pending_before: usize,
    pending_after: usize,
    queued: usize,
    built: Vec<DialogSetup>,
    runs: usize,
    fetches: usize,
    asks: usize,
    iterations: usize,
    destroys: usize,
    init_checks: usize,
    log: Vec<&'static str>,
}

impl Toolkit {
    fn new(init_status: i32, response: i32) -> Toolkit {
        Toolkit {
            init_status,
            response,
            filename: b"/home/user/report.txt".to_vec(),
            filenames: vec![b"/a.txt".to_vec(), b"/b.txt".to_vec()],
            pending_before: 0,
            pending_after: 0,
            queued: 0,
            built: Vec::new(),
            runs: 0,
            fetches: 0,
            asks: 0,
            iterations: 0,
            destroys: 0,
            init_checks: 0,
            log: Vec::new(),
        }
    }

    fn calls_after_init(&self) -> usize {
        self.built.len() + self.runs + self.fetches + self.asks + self.iterations + self.destroys
    }

    fn events_pending(&mut self) -> i32 {
        self.asks += 1;
        self.log.push("pending?");
        if self.queued > 0 {
            1
        } else {
            0
        }
    }
}

fn drive(session: Session, toolkit: &mut Toolkit) -> Selection {
    toolkit.init_checks += 1;
    let mut event = Event::InitChecked(toolkit.init_status);
    let mut session = session;
    for _ in 0..64 {
        let (next, action) = session.step(event);
        session = next;
        event = match action {
            Action::Build(setup) => {
                toolkit.built.push(setup);
                toolkit.log.push("build");
                Event::DialogBuilt
            }
            Action::Run => {
                toolkit.runs += 1;
                toolkit.queued = toolkit.pending_before;
                toolkit.log.push("run");
                Event::Response(toolkit.response)
            }
            Action::FetchFilename => {
                toolkit.fetches += 1;
                toolkit.log.push("filename");
                Event::Filename(toolkit.filename.clone())
            }
            Action::FetchFilenames => {
                toolkit.fetches += 1;
                toolkit.log.push("filenames");
                Event::Filenames(toolkit.filenames.clone())
            }
            Action::AskPending => Event::Pending(toolkit.events_pending()),
            Action::Iterate => {
                toolkit.iterations += 1;
                toolkit.queued -= 1;
                toolkit.log.push("iterate");
                Event::Pending(toolkit.events_pending())
            }
            Action::Destroy => {
                toolkit.destroys += 1;
                toolkit.queued = toolkit.pending_after;
                toolkit.log.push("destroy");
                Event::DialogDestroyed
            }
            Action::Return(selection) => {
                assert_eq!(session.stage, Stage::Destroyed);
                return selection;
            }
            Action::Idle => panic!("the session ignored an event it had asked for"),
        };
    }
    panic!("the session did not end");
}

fn start(operation: Operation, options: Option<DialogOptions>) -> Session {
    match operation {
        Operation::PickFile => pick_file(options),
        Operation::PickFiles => pick_files(options),
        Operation::SaveFile => save_file(options),
        Operation::PickFolder => pick_folder(options),
    }
}

const OPERATIONS: [Operation; 4] = [
    Operation::PickFile,
    Operation::PickFiles,
    Operation::SaveFile,
    Operation::PickFolder,
];

#[test]
fn action_codes_are_those_of_the_toolkit() {
    assert_eq!(GtkFileChooserAction::Open.code(), 0);
    assert_eq!(GtkFileChooserAction::Save.code(), 1);
    assert_eq!(GtkFileChooserAction::SelectFolder.code(), 2);
}

#[test]
fn response_codes_are_those_of_the_toolkit() {
    assert_eq!(RESPONSE_ACCEPT, -3);
    assert_eq!(RESPONSE_CANCEL, -6);
}

#[test]
fn dialog_request_terminates_its_texts() {
    let request = build_gtk_dialog("Open File", GtkFileChooserAction::Open, "Cancel", "Open");
    assert_eq!(request.title, "Open File\0");
    assert_eq!(request.action, GtkFileChooserAction::Open);
    assert_eq!(request.cancel_label, "Cancel\0");
    assert_eq!(request.cancel_response, -6);
    assert_eq!(request.accept_label, "Open\0");
    assert_eq!(request.accept_response, -3);
}

#[test]
fn native_text_appends_one_nul() {
    assert_eq!(native_text("Images"), "Images\0");
    assert_eq!(native_text(""), "\0");
}

#[test]
fn native_pattern_is_star_dot_extension() {
    assert_eq!(native_pattern("png"), "*.png\0");
    assert_eq!(native_pattern(""), "*.\0");
    assert_eq!(native_pattern("tar.gz"), "*.tar.gz\0");
}

#[test]
fn filter_group_keeps_label_and_extension_order() {
    let group = filter_group(&filter("Images", &["png", "jpg", "png"]));
    assert_eq!(group.name, "Images\0");
    assert_eq!(group.patterns, vec!["*.png\0", "*.jpg\0", "*.png\0"]);
}

#[test]
fn every_filter_becomes_one_group_in_order() {
    let options = sample_options();
    let groups = add_filters(&options.filters);
    assert_eq!(groups.len(), 3);
    assert_eq!(groups[0].name, "Images\0");
    assert_eq!(groups[0].patterns, vec!["*.png\0", "*.jpg\0"]);
    assert_eq!(groups[1].name, "Text\0");
    assert_eq!(groups[1].patterns, vec!["*.txt\0"]);
    assert_eq!(groups[2].name, "Anything\0");
    assert!(groups[2].patterns.is_empty());
}

#[test]
fn no_filter_gives_no_group() {
    assert!(add_filters(&Vec::new()).is_empty());
    assert!(DialogOptions::new().filters.is_empty());
}

#[test]
fn init_check_accepts_only_one() {
    assert!(init_check(1));
    assert!(!init_check(0));
    assert!(!init_check(-1));
    assert!(!init_check(2));
}

#[test]
fn draining_goes_on_while_events_are_pending() {
    assert!(wait_for_cleanup(1));
    assert!(!wait_for_cleanup(0));
    assert!(!wait_for_cleanup(7));
}

#[test]
fn single_result_is_decoded() {
    assert_eq!(get_result(&b"/tmp/a.txt".to_vec()), Some("/tmp/a.txt".to_string()));
    assert_eq!(get_result(&"/tmp/\u{e9}t\u{e9}".as_bytes().to_vec()), Some("/tmp/\u{e9}t\u{e9}".to_string()));
    assert_eq!(get_result(&Vec::new()), Some(String::new()));
}

#[test]
fn malformed_single_result_is_absent() {
    assert_eq!(get_result(&vec![0x2f, 0xff, 0x61]), None);
    assert_eq!(get_result(&vec![0xc3]), None);
}

#[test]
fn malformed_entry_is_dropped_from_the_list() {
    let raw = vec![b"/a".to_vec(), vec![0x2f, 0xfe], b"/c".to_vec()];
    let paths = get_results(&raw);
    assert_eq!(paths.len(), raw.len() - 1);
    assert_eq!(paths, vec!["/a".to_string(), "/c".to_string()]);
}

#[test]
fn results_keep_the_order_of_the_list() {
    let raw = vec![b"/z".to_vec(), b"/a".to_vec(), b"/m".to_vec()];
    assert_eq!(get_results(&raw), vec!["/z", "/a", "/m"]);
    assert!(get_results(&Vec::new()).is_empty());
}

#[test]
fn setup_of_each_operation() {
    let filters = sample_options().filters;
    let open = dialog_setup(Operation::PickFile, &filters);
    assert_eq!(open.request.title, "Open File\0");
    assert_eq!(open.request.action, GtkFileChooserAction::Open);
    assert_eq!(open.request.cancel_label, "Cancel\0");
    assert_eq!(open.request.accept_label, "Open\0");
    assert_eq!(open.groups.len(), 3);

    let many = dialog_setup(Operation::PickFiles, &filters);
    assert_eq!(many.request.title, "Open File\0");
    assert_eq!(many.request.action, GtkFileChooserAction::Open);
    assert_eq!(many.request.accept_label, "Open\0");
    assert_eq!(many.groups.len(), 3);

    let save = dialog_setup(Operation::SaveFile, &filters);
    assert_eq!(save.request.title, "Save File\0");
    assert_eq!(save.request.action, GtkFileChooserAction::Save);
    assert_eq!(save.request.accept_label, "Save\0");
    assert_eq!(save.groups.len(), 3);

    let folder = dialog_setup(Operation::PickFolder, &filters);
    assert_eq!(folder.request.title, "Select Folder\0");
    assert_eq!(folder.request.action, GtkFileChooserAction::SelectFolder);
    assert_eq!(folder.request.accept_label, "Select\0");
    assert!(folder.groups.is_empty());
}

#[test]
fn only_save_confirms_overwrite_and_only_pick_files_selects_many() {
    for operation in OPERATIONS {
        let setup = dialog_setup(operation, &Vec::new());
        assert_eq!(setup.overwrite_confirmation, operation == Operation::SaveFile);
        assert_eq!(setup.select_multiple, operation == Operation::PickFiles);
        assert_eq!(setup.request.cancel_response, RESPONSE_CANCEL);
        assert_eq!(setup.request.accept_response, RESPONSE_ACCEPT);
    }
}

#[test]
fn absent_options_mean_no_filters() {
    for operation in OPERATIONS {
        let session = start(operation, None);
        assert_eq!(session.operation, operation);
        assert_eq!(session.stage, Stage::Uninitialized);
        assert!(session.filters.is_empty());
        assert!(matches!(session.selection, Selection::Absent));
    }
    let session = pick_file(Some(sample_options()));
    assert_eq!(session.filters.len(), 3);
    assert_eq!(session.filters[1].name, "Text");
}

#[test]
fn failed_initialisation_touches_nothing() {
    for operation in OPERATIONS {
        for status in [0, -1, 2] {
            let mut toolkit = Toolkit::new(status, RESPONSE_ACCEPT);
            let selection = drive(start(operation, Some(sample_options())), &mut toolkit);
            assert!(matches!(selection, Selection::Absent));
            assert_eq!(toolkit.init_checks, 1);
            assert_eq!(toolkit.calls_after_init(), 0);
        }
    }
}

#[test]
fn finished_session_stays_idle() {
    let (session, action) = pick_file(None).step(Event::InitChecked(0));
    assert!(matches!(action, Action::Return(Selection::Absent)));
    assert_eq!(session.stage, Stage::Destroyed);
    let (session, action) = session.step(Event::InitChecked(1));
    assert!(matches!(action, Action::Idle));
    let (session, action) = session.step(Event::Response(RESPONSE_ACCEPT));
    assert!(matches!(action, Action::Idle));
    let (session, action) = session.step(Event::DialogDestroyed);
    assert!(matches!(action, Action::Idle));
    let (session, action) = session.step(Event::Pending(0));
    assert!(matches!(action, Action::Idle));
    assert_eq!(session.stage, Stage::Destroyed);
}

#[test]
fn cancel_is_absent_for_every_operation() {
    for operation in OPERATIONS {
        for response in [RESPONSE_CANCEL, -4, 0, -1] {
            let mut toolkit = Toolkit::new(1, response);
            let selection = drive(start(operation, Some(sample_options())), &mut toolkit);
            assert!(matches!(selection, Selection::Absent));
            assert_eq!(toolkit.fetches, 0);
            assert_eq!(toolkit.built.len(), 1);
            assert_eq!(toolkit.runs, 1);
            assert_eq!(toolkit.destroys, 1);
        }
    }
}

#[test]
fn accepted_single_choice_is_returned() {
    for operation in [Operation::PickFile, Operation::SaveFile, Operation::PickFolder] {
        let mut toolkit = Toolkit::new(1, RESPONSE_ACCEPT);
        let selection = drive(start(operation, None), &mut toolkit);
        match selection {
            Selection::One(path) => assert_eq!(path, "/home/user/report.txt"),
            _ => panic!("a single path was expected"),
        }
        assert_eq!(toolkit.built.len(), 1);
        assert_eq!(toolkit.runs, 1);
        assert_eq!(toolkit.fetches, 1);
        assert_eq!(toolkit.destroys, 1);
    }
}

#[test]
fn accepted_malformed_single_choice_is_absent() {
    let mut toolkit = Toolkit::new(1, RESPONSE_ACCEPT);
    toolkit.filename = vec![0x2f, 0x80];
    let selection = drive(save_file(None), &mut toolkit);
    assert!(matches!(selection, Selection::Absent));
    assert_eq!(toolkit.destroys, 1);
}

#[test]
fn accepted_list_drops_its_malformed_entry() {
    let mut toolkit = Toolkit::new(1, RESPONSE_ACCEPT);
    toolkit.filenames = vec![
        b"/one".to_vec(),
        b"/two".to_vec(),
        vec![0xff, 0xff],
        b"/four".to_vec(),
    ];
    let selection = drive(pick_files(Some(sample_options())), &mut toolkit);
    match selection {
        Selection::Many(paths) => assert_eq!(paths, vec!["/one", "/two", "/four"]),
        _ => panic!("a list of paths was expected"),
    }
    assert_eq!(toolkit.destroys, 1);
}

#[test]
fn accepted_list_without_a_well_formed_entry_is_absent() {
    let mut toolkit = Toolkit::new(1, RESPONSE_ACCEPT);
    toolkit.filenames = vec![vec![0xff]];
    let selection = drive(pick_files(None), &mut toolkit);
    assert!(matches!(selection, Selection::Absent));
    assert_eq!(toolkit.destroys, 1);

    let mut toolkit = Toolkit::new(1, RESPONSE_ACCEPT);
    toolkit.filenames = vec![vec![0xc3], vec![0x80, 0x80]];
    let selection = drive(pick_files(None), &mut toolkit);
    assert!(matches!(selection, Selection::Absent));
}

#[test]
fn accepted_empty_list_is_absent() {
    let mut toolkit = Toolkit::new(1, RESPONSE_ACCEPT);
    toolkit.filenames = Vec::new();
    let selection = drive(pick_files(Some(sample_options())), &mut toolkit);
    assert!(matches!(selection, Selection::Absent));
    assert_eq!(toolkit.fetches, 1);
    assert_eq!(toolkit.destroys, 1);
}

#[test]
fn accepted_list_of_one_is_returned() {
    let mut toolkit = Toolkit::new(1, RESPONSE_ACCEPT);
    toolkit.filenames = vec![b"/only".to_vec()];
    match drive(pick_files(None), &mut toolkit) {
        Selection::Many(paths) => assert_eq!(paths, vec!["/only"]),
        _ => panic!("a list of paths was expected"),
    }
}

#[test]
fn events_are_drained_before_and_after_the_destroy() {
    let mut toolkit = Toolkit::new(1, RESPONSE_CANCEL);
    toolkit.pending_before = 2;
    toolkit.pending_after = 3;
    let selection = drive(pick_folder(None), &mut toolkit);
    assert!(matches!(selection, Selection::Absent));
    assert_eq!(
        toolkit.log,
        vec![
            "build", "run", "pending?", "iterate", "pending?", "iterate", "pending?", "destroy",
            "pending?", "iterate", "pending?", "iterate", "pending?", "iterate", "pending?",
        ]
    );
    assert_eq!(toolkit.iterations, 5);
    assert_eq!(toolkit.asks, 7);
    assert_eq!(toolkit.destroys, 1);
}

#[test]
fn accepted_dialog_is_drained_after_the_selection_is_read() {
    let mut toolkit = Toolkit::new(1, RESPONSE_ACCEPT);
    toolkit.pending_after = 1;
    let selection = drive(save_file(None), &mut toolkit);
    assert!(matches!(selection, Selection::One(_)));
    assert_eq!(
        toolkit.log,
        vec!["build", "run", "filename", "pending?", "destroy", "pending?", "iterate", "pending?"]
    );
}

#[test]
fn result_waits_for_an_empty_queue() {
    let (session, _) = pick_file(None).step(Event::InitChecked(1));
    let (session, _) = session.step(Event::DialogBuilt);
    let (session, action) = session.step(Event::Response(RESPONSE_CANCEL));
    assert!(matches!(action, Action::AskPending));
    assert_eq!(session.stage, Stage::Cancelled(Teardown::DrainingBefore));
    let (session, action) = session.step(Event::Pending(1));
    assert!(matches!(action, Action::Iterate));
    assert_eq!(session.stage, Stage::Cancelled(Teardown::DrainingBefore));
    let (session, action) = session.step(Event::Pending(0));
    assert!(matches!(action, Action::Destroy));
    assert_eq!(session.stage, Stage::Cancelled(Teardown::Destroying));
    let (session, action) = session.step(Event::Pending(0));
    assert!(matches!(action, Action::Idle));
    assert_eq!(session.stage, Stage::Cancelled(Teardown::Destroying));
    let (session, action) = session.step(Event::DialogDestroyed);
    assert!(matches!(action, Action::AskPending));
    assert_eq!(session.stage, Stage::Cancelled(Teardown::DrainingAfter));
    let (session, action) = session.step(Event::Pending(1));
    assert!(matches!(action, Action::Iterate));
    let (session, action) = session.step(Event::Pending(1));
    assert!(matches!(action, Action::Iterate));
    assert_eq!(session.stage, Stage::Cancelled(Teardown::DrainingAfter));
    let (session, action) = session.step(Event::DialogDestroyed);
    assert!(matches!(action, Action::Idle));
    let (session, action) = session.step(Event::Pending(2));
    assert!(matches!(action, Action::Return(Selection::Absent)));
    assert_eq!(session.stage, Stage::Destroyed);
}

#[test]
fn dialog_is_built_with_the_configured_filters() {
    for operation in [Operation::PickFile, Operation::PickFiles, Operation::SaveFile] {
        let mut toolkit = Toolkit::new(1, RESPONSE_CANCEL);
        drive(start(operation, Some(sample_options())), &mut toolkit);
        let setup = &toolkit.built[0];
        assert_eq!(setup.groups.len(), 3);
        assert_eq!(setup.groups[0].name, "Images\0");
        assert_eq!(setup.groups[0].patterns, vec!["*.png\0", "*.jpg\0"]);
        assert_eq!(setup.groups[1].name, "Text\0");
        assert_eq!(setup.groups[1].patterns, vec!["*.txt\0"]);
        assert_eq!(setup.groups[2].name, "Anything\0");
        assert!(setup.groups[2].patterns.is_empty());
    }
    let mut toolkit = Toolkit::new(1, RESPONSE_CANCEL);
    drive(pick_folder(Some(sample_options())), &mut toolkit);
    assert!(toolkit.built[0].groups.is_empty());
}

#[test]
fn stages_follow_one_another() {
    let session = pick_files(None);
    assert_eq!(session.stage, Stage::Uninitialized);
    let (session, action) = session.step(Event::InitChecked(1));
    assert_eq!(session.stage, Stage::Built);
    assert!(matches!(action, Action::Build(_)));
    let (session, action) = session.step(Event::DialogBuilt);
    assert_eq!(session.stage, Stage::Run);
    assert!(matches!(action, Action::Run));
    let (session, action) = session.step(Event::Response(RESPONSE_ACCEPT));
    assert_eq!(session.stage, Stage::Accepted);
    assert!(matches!(action, Action::FetchFilenames));
    let (session, action) = session.step(Event::Filenames(vec![b"/x".to_vec()]));
    assert_eq!(session.stage, Stage::Collected(Teardown::DrainingBefore));
    assert!(matches!(action, Action::AskPending));
    let (session, action) = session.step(Event::Pending(0));
    assert_eq!(session.stage, Stage::Collected(Teardown::Destroying));
    assert!(matches!(action, Action::Destroy));
    let (session, action) = session.step(Event::DialogDestroyed);
    assert_eq!(session.stage, Stage::Collected(Teardown::DrainingAfter));
    assert!(matches!(action, Action::AskPending));
    let (session, action) = session.step(Event::Pending(0));
    assert_eq!(session.stage, Stage::Destroyed);
    match action {
        Action::Return(Selection::Many(paths)) => assert_eq!(paths, vec!["/x"]),
        _ => panic!("the selection was expected"),
    }
    assert!(matches!(session.selection, Selection::Absent));
}

#[test]
fn unawaited_event_changes_nothing() {
    let (session, action) = pick_file(None).step(Event::DialogBuilt);
    assert_eq!(session.stage, Stage::Uninitialized);
    assert!(matches!(action, Action::Idle));
    let (session, _) = session.step(Event::InitChecked(1));
    let (session, action) = session.step(Event::Response(RESPONSE_ACCEPT));
    assert_eq!(session.stage, Stage::Built);
    assert!(matches!(action, Action::Idle));
    let (session, _) = session.step(Event::DialogBuilt);
    let (session, _) = session.step(Event::Response(RESPONSE_ACCEPT));
    assert_eq!(session.stage, Stage::Accepted);
    let (session, action) = session.step(Event::Filenames(vec![b"/x".to_vec()]));
    assert_eq!(session.stage, Stage::Accepted);
    assert!(matches!(action, Action::Idle));
    let (session, action) = session.step(Event::DialogDestroyed);
    assert_eq!(session.stage, Stage::Accepted);
    assert!(matches!(action, Action::Idle));
    let (session, action) = session.step(Event::Pending(0));
    assert_eq!(session.stage, Stage::Accepted);
    assert!(matches!(action, Action::Idle));
    let (session, action) = session.step(Event::Filename(b"/x".to_vec()));
    assert_eq!(session.stage, Stage::Collected(Teardown::DrainingBefore));
    assert!(matches!(action, Action::AskPending));
    let (session, action) = session.step(Event::DialogDestroyed);
    assert_eq!(session.stage, Stage::Collected(Teardown::DrainingBefore));
    assert!(matches!(action, Action::Idle));
}

#[test]
fn response_signal_connection() {
    let connection = connect_response();
    assert_eq!(connection.signal, "response\0");
    assert_eq!(connection.flags, 0);
    assert!(connection_made(1));
    assert!(connection_made(u64::MAX));
    assert!(!connection_made(0));
}
