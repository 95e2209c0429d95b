//! One dialog invocation as a state machine. The caller performs each action
//! on the toolkit and reports what came of it; the session decides what
//! happens next and what the invocation finally yields.

use crate::chooser::{build_gtk_dialog, DialogRequest, GtkFileChooserAction, RESPONSE_ACCEPT, RESPONSE_CANCEL};
use crate::filter::{add_filters, groups_register, nul_terminated, DialogOptions, Filter, FilterGroup};
use crate::lifecycle::{init_check, wait_for_cleanup, TOOLKIT_TRUE};
use crate::text::{byte_strings, decoded_paths, get_result, get_results, texts};
use vstd::prelude::*;
use vstd::utf8::{decode_utf8, valid_utf8};

verus! {

/// The four things a caller can ask the chooser for.
#[derive(Clone, Copy, Debug, PartialEq, Eq, Structural)]
pub enum Operation {
    PickFile,
    PickFiles,
    SaveFile,
    PickFolder,
}

impl Operation {
    /// The chooser behaviour behind the operation.
    pub open spec fn spec_chooser_action(self) -> GtkFileChooserAction {
        match self {
            Operation::PickFile | Operation::PickFiles => GtkFileChooserAction::Open,
            Operation::SaveFile => GtkFileChooserAction::Save,
            Operation::PickFolder => GtkFileChooserAction::SelectFolder,
        }
    }

    /// The window title.
    pub open spec fn spec_title(self) -> Seq<char> {
        match self {
            Operation::PickFile | Operation::PickFiles => "Open File"@,
            Operation::SaveFile => "Save File"@,
            Operation::PickFolder => "Select Folder"@,
        }
    }

    /// The label of the confirm button.
    pub open spec fn spec_accept_label(self) -> Seq<char> {
        match self {
            Operation::PickFile | Operation::PickFiles => "Open"@,
            Operation::SaveFile => "Save"@,
            Operation::PickFolder => "Select"@,
        }
    }

    /// Only picking several files turns multiple selection on.
    pub open spec fn selects_multiple(self) -> bool {
        self == Operation::PickFiles
    }

    /// Only saving makes the toolkit confirm before an existing file is
    /// overwritten.
    pub open spec fn confirms_overwrite(self) -> bool {
        self == Operation::SaveFile
    }

    /// Every operation but picking a folder offers the configured filters.
    pub open spec fn offers_filters(self) -> bool {
        self != Operation::PickFolder
    }

    /// The chooser behaviour to request for the operation.
    pub fn chooser_action(self) -> (action: GtkFileChooserAction)
        ensures
            action == self.spec_chooser_action(),
    {
        match self {
            Operation::PickFile | Operation::PickFiles => GtkFileChooserAction::Open,
            Operation::SaveFile => GtkFileChooserAction::Save,
            Operation::PickFolder => GtkFileChooserAction::SelectFolder,
        }
    }

    /// The title of the operation's window.
    pub fn title(self) -> (title: &'static str)
        ensures
            title@ == self.spec_title(),
    {
        match self {
            Operation::PickFile | Operation::PickFiles => "Open File",
            Operation::SaveFile => "Save File",
            Operation::PickFolder => "Select Folder",
        }
    }

    /// The label of the operation's confirm button.
    pub fn accept_label(self) -> (label: &'static str)
        ensures
            label@ == self.spec_accept_label(),
    {
        match self {
            Operation::PickFile | Operation::PickFiles => "Open",
            Operation::SaveFile => "Save",
            Operation::PickFolder => "Select",
        }
    }
}

/// How a dialog is created and configured before it is shown.
#[derive(Clone, Debug)]
pub struct DialogSetup {
    pub request: DialogRequest,
    pub select_multiple: bool,
    pub overwrite_confirmation: bool,
    pub groups: Vec<FilterGroup>,
}

impl DialogSetup {
    /// This setup is the one `operation` calls for, given the configured
    /// filters.
    pub open spec fn configures(&self, operation: Operation, filters: Seq<Filter>) -> bool {
        &&& self.request.title@ == nul_terminated(operation.spec_title())
        &&& self.request.action == operation.spec_chooser_action()
        &&& self.request.cancel_label@ == nul_terminated("Cancel"@)
        &&& self.request.cancel_response == RESPONSE_CANCEL
        &&& self.request.accept_label@ == nul_terminated(operation.spec_accept_label())
        &&& self.request.accept_response == RESPONSE_ACCEPT
        &&& self.select_multiple == operation.selects_multiple()
        &&& self.overwrite_confirmation == operation.confirms_overwrite()
        &&& if operation.offers_filters() {
            groups_register(self.groups@, filters)
        } else {
            self.groups@.len() == 0
        }
    }
}

/// The setup of the dialog for an operation.
pub fn dialog_setup(operation: Operation, filters: &Vec<Filter>) -> (setup: DialogSetup)
    ensures
        setup.configures(operation, filters@),
{
    let request = build_gtk_dialog(
        operation.title(),
        operation.chooser_action(),
        "Cancel",
        operation.accept_label(),
    );
    let groups = match operation {
        Operation::PickFolder => Vec::new(),
        _ => add_filters(filters),
    };
    DialogSetup {
        request,
        select_multiple: match operation {
            Operation::PickFiles => true,
            _ => false,
        },
        overwrite_confirmation: match operation {
            Operation::SaveFile => true,
            _ => false,
        },
        groups,
    }
}

/// What an invocation yields.
#[derive(Clone, Debug)]
pub enum Selection {
    Absent,
    One(String),
    Many(Vec<String>),
}

/// A selection as plain text.
pub ghost enum Chosen {
    Absent,
    One(Seq<char>),
    Many(Seq<Seq<char>>),
}

impl View for Selection {
    type V = Chosen;

    open spec fn view(&self) -> Chosen {
        match self {
            Selection::Absent => Chosen::Absent,
            Selection::One(path) => Chosen::One(path@),
            Selection::Many(paths) => Chosen::Many(texts(paths@)),
        }
    }
}

/// How far the teardown of a dialog has come.
#[derive(Clone, Copy, Debug, PartialEq, Eq, Structural)]
pub enum Teardown {
    /// Pending events are drained; the dialog still exists.
    DrainingBefore,
    /// The dialog is being destroyed.
    Destroying,
    /// The dialog is gone; the events its destruction left are drained.
    DrainingAfter,
}

/// Where an invocation stands.
#[derive(Clone, Copy, Debug, PartialEq, Eq, Structural)]
pub enum Stage {
    /// Nothing has happened; the outcome of initialising the toolkit is awaited.
    Uninitialized,
    /// The dialog is being created and configured.
    Built,
    /// The dialog is shown; the user's response is awaited.
    Run,
    /// The user confirmed; the selection is being read.
    Accepted,
    /// The selection has been read; the dialog is being torn down.
    Collected(Teardown),
    /// The user did not confirm; the dialog is being torn down.
    Cancelled(Teardown),
    /// The invocation is over.
    Destroyed,
}

impl Stage {
    /// The teardown under way at this stage, if one is.
    pub open spec fn teardown(self) -> Option<Teardown> {
        match self {
            Stage::Collected(phase) => Some(phase),
            Stage::Cancelled(phase) => Some(phase),
            _ => None,
        }
    }

    /// This stage with its teardown at `phase`; a stage without teardown
    /// stays as it is.
    pub open spec fn at_phase(self, phase: Teardown) -> Stage {
        match self {
            Stage::Collected(_) => Stage::Collected(phase),
            Stage::Cancelled(_) => Stage::Cancelled(phase),
            other => other,
        }
    }
}

/// What the caller reports back from the toolkit.
#[derive(Clone, Debug)]
pub enum Event {
    /// The status returned by the toolkit's initialisation check.
    InitChecked(i32),
    /// The dialog now exists, configured as asked.
    DialogBuilt,
    /// The response code with which the modal run ended.
    Response(i32),
    /// The bytes of the selected filename, without the closing NUL.
    Filename(Vec<u8>),
    /// The bytes of each selected filename, in the toolkit's order.
    Filenames(Vec<Vec<u8>>),
    /// The toolkit's answer to whether events are pending.
    Pending(i32),
    /// The dialog has been destroyed.
    DialogDestroyed,
}

/// What the caller is to do next.
#[derive(Clone, Debug)]
pub enum Action {
    /// Create the dialog, set its two switches and attach the filter groups.
    Build(DialogSetup),
    /// Run the dialog modally.
    Run,
    /// Read the selected filename.
    FetchFilename,
    /// Read the list of selected filenames.
    FetchFilenames,
    /// Ask the toolkit whether events are pending.
    AskPending,
    /// Run one iteration of the toolkit's main loop, then ask again whether
    /// events are pending.
    Iterate,
    /// Destroy the dialog.
    Destroy,
    /// Hand the selection to whoever asked; no toolkit call remains.
    Return(Selection),
    /// The event was not the one awaited: do nothing.
    Idle,
}

/// One dialog invocation.
#[derive(Clone, Debug)]
pub struct Session {
    pub operation: Operation,
    pub filters: Vec<Filter>,
    pub stage: Stage,
    pub selection: Selection,
}

/// What a confirmed multiple selection yields: the decoded filenames, or
/// nothing when none is left.
pub open spec fn chosen_many(raw: Seq<Seq<u8>>) -> Chosen {
    if decoded_paths(raw).len() == 0 {
        Chosen::Absent
    } else {
        Chosen::Many(decoded_paths(raw))
    }
}

/// What a confirmed single selection yields: the decoded filename, or
/// nothing when its bytes are not valid UTF-8.
pub open spec fn chosen_one(raw: Seq<u8>) -> Chosen {
    if valid_utf8(raw) {
        Chosen::One(decode_utf8(raw))
    } else {
        Chosen::Absent
    }
}

impl Session {
    /// The event is the one this stage waits for.
    pub open spec fn expects(&self, event: &Event) -> bool {
        match event {
            Event::InitChecked(_) => self.stage is Uninitialized,
            Event::DialogBuilt => self.stage is Built,
            Event::Response(_) => self.stage is Run,
            Event::Filename(_) => self.stage is Accepted && !self.operation.selects_multiple(),
            Event::Filenames(_) => self.stage is Accepted && self.operation.selects_multiple(),
            Event::Pending(_) => self.stage.teardown() == Some(Teardown::DrainingBefore)
                || self.stage.teardown() == Some(Teardown::DrainingAfter),
            Event::DialogDestroyed => self.stage.teardown() == Some(Teardown::Destroying),
        }
    }

    /// What the invocation owes its caller once the teardown is over: the
    /// selection that was read, and nothing after a cancel.
    pub open spec fn owed(&self) -> Chosen {
        if self.stage is Collected {
            self.selection@
        } else {
            Chosen::Absent
        }
    }

    /// The stage after an event. An event that is not awaited changes nothing.
    pub open spec fn stage_after(&self, event: &Event) -> Stage {
        if !self.expects(event) {
            self.stage
        } else {
            match event {
                Event::InitChecked(status) => if *status == TOOLKIT_TRUE {
                    Stage::Built
                } else {
                    Stage::Destroyed
                },
                Event::DialogBuilt => Stage::Run,
                Event::Response(code) => if *code == RESPONSE_ACCEPT {
                    Stage::Accepted
                } else {
                    Stage::Cancelled(Teardown::DrainingBefore)
                },
                Event::Filename(_) => Stage::Collected(Teardown::DrainingBefore),
                Event::Filenames(_) => Stage::Collected(Teardown::DrainingBefore),
                Event::Pending(status) => if *status == TOOLKIT_TRUE {
                    self.stage
                } else if self.stage.teardown() == Some(Teardown::DrainingBefore) {
                    self.stage.at_phase(Teardown::Destroying)
                } else {
                    Stage::Destroyed
                },
                Event::DialogDestroyed => self.stage.at_phase(Teardown::DrainingAfter),
            }
        }
    }

    /// The selection held after an event: what was read from the toolkit
    /// once it is read, and nothing again once it has been handed out.
    pub open spec fn selection_after(&self, event: &Event) -> Chosen {
        if !self.expects(event) {
            self.selection@
        } else {
            match event {
                Event::Filename(raw) => chosen_one(raw@),
                Event::Filenames(raw) => chosen_many(byte_strings(raw@)),
                Event::Pending(_) => if self.stage_after(event) is Destroyed {
                    Chosen::Absent
                } else {
                    self.selection@
                },
                _ => self.selection@,
            }
        }
    }

    /// The action is the one this session answers the event with.
    pub open spec fn answers(&self, event: &Event, action: &Action) -> bool {
        if !self.expects(event) {
            action is Idle
        } else {
            match event {
                Event::InitChecked(status) => if *status == TOOLKIT_TRUE {
                    action is Build && action->Build_0.configures(self.operation, self.filters@)
                } else {
                    action is Return && action->Return_0@ is Absent
                },
                Event::DialogBuilt => action is Run,
                Event::Response(code) => if *code != RESPONSE_ACCEPT {
                    action is AskPending
                } else if self.operation.selects_multiple() {
                    action is FetchFilenames
                } else {
                    action is FetchFilename
                },
                Event::Filename(_) => action is AskPending,
                Event::Filenames(_) => action is AskPending,
                Event::Pending(status) => if *status == TOOLKIT_TRUE {
                    action is Iterate
                } else if self.stage.teardown() == Some(Teardown::DrainingBefore) {
                    action is Destroy
                } else {
                    action is Return && action->Return_0@ == self.owed()
                },
                Event::DialogDestroyed => action is AskPending,
            }
        }
    }

    /// One step of the invocation: from this session and an event to `next`
    /// and the action that answers the event.
    pub open spec fn steps_to(&self, event: &Event, next: &Session, action: &Action) -> bool {
        &&& next.operation == self.operation
        &&& next.filters == self.filters
        &&& next.stage == self.stage_after(event)
        &&& next.selection@ == self.selection_after(event)
        &&& self.answers(event, action)
    }

    /// A fresh invocation of `operation`. Absent options offer no filter.
    pub fn start(operation: Operation, options: Option<DialogOptions>) -> (session: Session)
        ensures
            session.operation == operation,
            session.stage is Uninitialized,
            session.selection is Absent,
            match options {
                Some(given) => session.filters == given.filters,
                None => session.filters@.len() == 0,
            },
    {
        let filters = match options {
            Some(given) => given.filters,
            None => Vec::new(),
        };
        Session { operation, filters, stage: Stage::Uninitialized, selection: Selection::Absent }
    }

    /// Takes one event and says what to do next.
    pub fn step(self, event: Event) -> (out: (Session, Action))
        ensures
            self.steps_to(&event, &out.0, &out.1),
    {
        let Session { operation, filters, stage, selection } = self;
        match (stage, event) {
            (Stage::Uninitialized, Event::InitChecked(status)) => {
                if init_check(status) {
                    let setup = dialog_setup(operation, &filters);
                    (Session { operation, filters, stage: Stage::Built, selection }, Action::Build(setup))
                } else {
                    (
                        Session { operation, filters, stage: Stage::Destroyed, selection },
                        Action::Return(Selection::Absent),
                    )
                }
            },
            (Stage::Built, Event::DialogBuilt) => {
                (Session { operation, filters, stage: Stage::Run, selection }, Action::Run)
            },
            (Stage::Run, Event::Response(code)) => {
                if code != RESPONSE_ACCEPT {
                    (
                        Session {
                            operation,
                            filters,
                            stage: Stage::Cancelled(Teardown::DrainingBefore),
                            selection,
                        },
                        Action::AskPending,
                    )
                } else {
                    let fetch = match operation {
                        Operation::PickFiles => Action::FetchFilenames,
                        _ => Action::FetchFilename,
                    };
                    (Session { operation, filters, stage: Stage::Accepted, selection }, fetch)
                }
            },
            (Stage::Accepted, Event::Filename(raw)) => {
                match operation {
                    Operation::PickFiles => (
                        Session { operation, filters, stage, selection },
                        Action::Idle,
                    ),
                    _ => {
                        let read = match get_result(&raw) {
                            Some(path) => Selection::One(path),
                            None => Selection::Absent,
                        };
                        (
                            Session {
                                operation,
                                filters,
                                stage: Stage::Collected(Teardown::DrainingBefore),
                                selection: read,
                            },
                            Action::AskPending,
                        )
                    },
                }
            },
            (Stage::Accepted, Event::Filenames(raw)) => {
                match operation {
                    Operation::PickFiles => {
                        let paths = get_results(&raw);
                        let read = if paths.len() == 0 {
                            Selection::Absent
                        } else {
                            Selection::Many(paths)
                        };
                        (
                            Session {
                                operation,
                                filters,
                                stage: Stage::Collected(Teardown::DrainingBefore),
                                selection: read,
                            },
                            Action::AskPending,
                        )
                    },
                    _ => (Session { operation, filters, stage, selection }, Action::Idle),
                }
            },
            (Stage::Collected(phase), Event::Pending(status)) => {
                match phase {
                    Teardown::Destroying => (
                        Session { operation, filters, stage, selection },
                        Action::Idle,
                    ),
                    _ => if wait_for_cleanup(status) {
                        (Session { operation, filters, stage, selection }, Action::Iterate)
                    } else {
                        match phase {
                            Teardown::DrainingBefore => (
                                Session {
                                    operation,
                                    filters,
                                    stage: Stage::Collected(Teardown::Destroying),
                                    selection,
                                },
                                Action::Destroy,
                            ),
                            _ => (
                                Session {
                                    operation,
                                    filters,
                                    stage: Stage::Destroyed,
                                    selection: Selection::Absent,
                                },
                                Action::Return(selection),
                            ),
                        }
                    },
                }
            },
            (Stage::Cancelled(phase), Event::Pending(status)) => {
                match phase {
                    Teardown::Destroying => (
                        Session { operation, filters, stage, selection },
                        Action::Idle,
                    ),
                    _ => if wait_for_cleanup(status) {
                        (Session { operation, filters, stage, selection }, Action::Iterate)
                    } else {
                        match phase {
                            Teardown::DrainingBefore => (
                                Session {
                                    operation,
                                    filters,
                                    stage: Stage::Cancelled(Teardown::Destroying),
                                    selection,
                                },
                                Action::Destroy,
                            ),
                            _ => (
                                Session {
                                    operation,
                                    filters,
                                    stage: Stage::Destroyed,
                                    selection: Selection::Absent,
                                },
                                Action::Return(Selection::Absent),
                            ),
                        }
                    },
                }
            },
            (Stage::Collected(Teardown::Destroying), Event::DialogDestroyed) => {
                (
                    Session {
                        operation,
                        filters,
                        stage: Stage::Collected(Teardown::DrainingAfter),
                        selection,
                    },
                    Action::AskPending,
                )
            },
            (Stage::Cancelled(Teardown::Destroying), Event::DialogDestroyed) => {
                (
                    Session {
                        operation,
                        filters,
                        stage: Stage::Cancelled(Teardown::DrainingAfter),
                        selection,
                    },
                    Action::AskPending,
                )
            },
            (stage, _) => (Session { operation, filters, stage, selection }, Action::Idle),
        }
    }
}

/// Starts the choice of a single file.
pub fn pick_file(options: Option<DialogOptions>) -> (session: Session)
    ensures
        session.operation is PickFile,
        session.stage is Uninitialized,
        session.selection is Absent,
        match options {
            Some(given) => session.filters == given.filters,
            None => session.filters@.len() == 0,
        },
{
    Session::start(Operation::PickFile, options)
}

/// Starts the choice of one or more files.
pub fn pick_files(options: Option<DialogOptions>) -> (session: Session)
    ensures
        session.operation is PickFiles,
        session.stage is Uninitialized,
        session.selection is Absent,
        match options {
            Some(given) => session.filters == given.filters,
            None => session.filters@.len() == 0,
        },
{
    Session::start(Operation::PickFiles, options)
}

/// Starts the choice of a file to save to.
pub fn save_file(options: Option<DialogOptions>) -> (session: Session)
    ensures
        session.operation is SaveFile,
        session.stage is Uninitialized,
        session.selection is Absent,
        match options {
            Some(given) => session.filters == given.filters,
            None => session.filters@.len() == 0,
        },
{
    Session::start(Operation::SaveFile, options)
}

/// Starts the choice of a folder.
pub fn pick_folder(options: Option<DialogOptions>) -> (session: Session)
    ensures
        session.operation is PickFolder,
        session.stage is Uninitialized,
        session.selection is Absent,
        match options {
            Some(given) => session.filters == given.filters,
            None => session.filters@.len() == 0,
        },
{
    Session::start(Operation::PickFolder, options)
}

} // verus!
