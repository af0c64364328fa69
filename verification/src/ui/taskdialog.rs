use vstd::prelude::*;

use crate::text::{encode_utf16_nul, utf16_nul};

verus! {

/// Button id of the OK button.
pub const IDOK: i32 = 1;

/// Button id of the Cancel button, and of a dialog that was closed.
pub const IDCANCEL: i32 = 2;

/// Button id of the Yes button.
pub const IDYES: i32 = 6;

/// Button id of the No button.
pub const IDNO: i32 = 7;

/// Common button flag of the OK button.
pub const TDCBF_OK_BUTTON: i32 = 0x0001;

/// Common button flag of the Yes button.
pub const TDCBF_YES_BUTTON: i32 = 0x0002;

/// Common button flag of the No button.
pub const TDCBF_NO_BUTTON: i32 = 0x0004;

/// Common button flag of the Cancel button.
pub const TDCBF_CANCEL_BUTTON: i32 = 0x0008;

/// Dialog flag: texts may hold hyperlinks.
pub const TDF_ENABLE_HYPERLINKS: i32 = 0x0001;

/// Dialog flag: the verification checkbox starts checked.
pub const TDF_VERIFICATION_FLAG_CHECKED: i32 = 0x0100;

/// Dialog flag: the dialog shows a progress bar.
pub const TDF_SHOW_PROGRESS_BAR: i32 = 0x0200;

/// Dialog flag: the dialog's callback is called at regular intervals.
pub const TDF_CALLBACK_TIMER: i32 = 0x0800;

/// Window message sent when a button is clicked.
pub const WM_COMMAND: u32 = 0x0111;

/// Notification code of a button click.
pub const BN_CLICKED: u16 = 0;

/// Dialog notification: a button was clicked.
pub const TDN_BUTTON_CLICKED: u32 = 2;

/// Dialog notification: a hyperlink was clicked.
pub const TDN_HYPERLINK_CLICKED: u32 = 3;

/// Dialog notification: the timer ticked.
pub const TDN_TIMER: u32 = 4;

/// Dialog notification: the dialog has been constructed.
pub const TDN_DIALOG_CONSTRUCTED: u32 = 7;

/// Dialog message: set the range of the progress bar.
pub const TDM_SET_PROGRESS_BAR_RANGE: u32 = 1129;

/// Dialog message: set the position of the progress bar.
pub const TDM_SET_PROGRESS_BAR_POS: u32 = 1130;

/// Result of a callback: go on as usual.
pub const S_OK: i32 = 0;

/// Result of a callback: do not close the dialog by the button that was
/// clicked.
pub const S_FALSE: i32 = 1;

/// The icon of a task dialog.
#[derive(Clone, Copy, Debug, PartialEq, Eq, Structural)]
pub enum TaskDialogIcon {
    ErrorIcon,
    WarningIcon,
    InformationIcon,
    ShieldIcon,
    NoIcon,
}

/// A button of a task dialog, or the way in which the dialog was closed.
#[derive(Clone, Copy, Debug, PartialEq, Eq, Structural)]
pub enum TaskDialogAction {
    /// No button: the dialog ended in some other way.
    NoAction,
    Okay,
    Yes,
    No,
    Cancel,
}

/// What the callback of a task dialog keeps between its calls.
#[derive(Clone, Copy, Debug, PartialEq, Eq, Structural)]
pub struct TaskDialogCallbackData {
    /// The window of the dialog; zero until the dialog has been constructed.
    pub dialog_handle: isize,
    /// Whether the dialog shows progress.
    pub dialog_progress: bool,
    /// The progress value at which the bar is empty.
    pub dialog_progress_min: u16,
    /// The progress value at which the bar is full and the task done.
    pub dialog_progress_max: u16,
}

/// How a task dialog ended.
#[derive(Clone, Copy, Debug, PartialEq, Eq, Structural)]
pub struct TaskDialogResult {
    /// Whether the verification checkbox was checked.
    pub verified: bool,
    /// The button that closed the dialog.
    pub action: TaskDialogAction,
    /// The progress that was reached, if the task was completed.
    pub progress: Option<u32>,
}

/// What the callback of a task dialog asks to be done.
#[derive(Clone, Copy, Debug, PartialEq, Eq, Structural)]
pub enum TaskDialogCommand {
    /// Nothing.
    Nothing,
    /// Send the dialog the message that sets the range of the progress bar,
    /// with this packed range as its last parameter.
    SetProgressRange(u32),
    /// Post the dialog the message that sets the position of the progress
    /// bar, with this position.
    SetProgressPosition(u32),
    /// Open the hyperlink that was clicked.
    OpenHyperlink,
    /// End the dialog as if its OK button had been clicked.
    EndWithOk,
}

/// Collects the settings of a task dialog.
#[derive(Debug)]
pub struct TaskDialogBuilder {
    dialog_title_utf16_nul: Vec<u16>,
    dialog_heading_utf16_nul: Vec<u16>,
    dialog_content_utf16_nul: Vec<u16>,
    dialog_footer_utf16_nul: Vec<u16>,
    dialog_icon: TaskDialogIcon,
    dialog_allow_hyperlinks: bool,
    dialog_verification_text_utf16_nul: Vec<u16>,
    initial_verification_value: bool,
    dialog_buttons: Vec<TaskDialogAction>,
    dialog_progress: bool,
    dialog_progress_min: u16,
    dialog_progress_max: u16,
}

/// The settings of a task dialog as a mathematical value. Texts are given as
/// they are handed to the system: in UTF-16, with a terminating zero.
pub struct TaskDialogSettings {
    pub title: Seq<u16>,
    pub heading: Seq<u16>,
    pub content: Seq<u16>,
    pub footer: Seq<u16>,
    pub icon: TaskDialogIcon,
    pub allow_hyperlinks: bool,
    pub verification_text: Seq<u16>,
    pub initial_verification: bool,
    pub buttons: Seq<TaskDialogAction>,
    pub progress: bool,
    pub progress_min: u16,
    pub progress_max: u16,
}

impl View for TaskDialogBuilder {
    type V = TaskDialogSettings;

    closed spec fn view(&self) -> TaskDialogSettings {
        TaskDialogSettings {
            title: self.dialog_title_utf16_nul@,
            heading: self.dialog_heading_utf16_nul@,
            content: self.dialog_content_utf16_nul@,
            footer: self.dialog_footer_utf16_nul@,
            icon: self.dialog_icon,
            allow_hyperlinks: self.dialog_allow_hyperlinks,
            verification_text: self.dialog_verification_text_utf16_nul@,
            initial_verification: self.initial_verification_value,
            buttons: self.dialog_buttons@,
            progress: self.dialog_progress,
            progress_min: self.dialog_progress_min,
            progress_max: self.dialog_progress_max,
        }
    }
}

/// The two 16-bit words `low` and `high` in one 32-bit word.
pub open spec fn packed(low: u16, high: u16) -> u32 {
    (low as u32) | ((high as u32) << 16)
}

/// Packs two 16-bit words into one 32-bit word, `low` into the lower half.
pub fn pack_words(low: u16, high: u16) -> (r: u32)
    ensures
        r == packed(low, high),
        r == low + high * 0x1_0000,
{
    let r: u32 = (low as u32) | ((high as u32) << 16);
    assert(((low as u32) | ((high as u32) << 16)) == (low as u32) + (high as u32) * 0x1_0000u32)
        by (bit_vector);
    r
}

/// The command that closes a dialog from outside: the window message to post
/// and its first parameter, which names the OK button in its lower half and
/// a click in its upper half.
pub fn close() -> (r: (u32, u32))
    ensures
        r == (WM_COMMAND, packed(IDOK as u16, BN_CLICKED)),
        r.1 == 1,
{
    let wparam = pack_words(IDOK as u16, BN_CLICKED);
    (WM_COMMAND, wparam)
}

impl TaskDialogIcon {
    /// The resource number of the icon; zero for no icon.
    pub open spec fn icon_id(self) -> u16 {
        match self {
            TaskDialogIcon::WarningIcon => 0xFFFF,
            TaskDialogIcon::ErrorIcon => 0xFFFE,
            TaskDialogIcon::InformationIcon => 0xFFFD,
            TaskDialogIcon::ShieldIcon => 0xFFFC,
            TaskDialogIcon::NoIcon => 0,
        }
    }

    /// Returns the resource number of the icon; zero for no icon.
    pub fn to_icon_id(&self) -> (r: u16)
        ensures
            r == self.icon_id(),
    {
        match self {
            TaskDialogIcon::WarningIcon => 0xFFFF,
            TaskDialogIcon::ErrorIcon => 0xFFFE,
            TaskDialogIcon::InformationIcon => 0xFFFD,
            TaskDialogIcon::ShieldIcon => 0xFFFC,
            TaskDialogIcon::NoIcon => 0,
        }
    }
}

impl TaskDialogAction {
    /// The action that the button id `id` stands for.
    pub open spec fn of_id(id: i32) -> TaskDialogAction {
        if id == IDCANCEL {
            TaskDialogAction::Cancel
        } else if id == IDYES {
            TaskDialogAction::Yes
        } else if id == IDNO {
            TaskDialogAction::No
        } else if id == IDOK {
            TaskDialogAction::Okay
        } else {
            TaskDialogAction::NoAction
        }
    }

    /// The button id of this action. `NoAction` has none.
    pub open spec fn id(self) -> Option<i32> {
        match self {
            TaskDialogAction::Cancel => Some(IDCANCEL),
            TaskDialogAction::Yes => Some(IDYES),
            TaskDialogAction::No => Some(IDNO),
            TaskDialogAction::Okay => Some(IDOK),
            TaskDialogAction::NoAction => None,
        }
    }

    /// The flag that puts the button of this action on a dialog; zero for
    /// `NoAction`.
    pub open spec fn button_flag(self) -> i32 {
        match self {
            TaskDialogAction::NoAction => 0,
            TaskDialogAction::Yes => TDCBF_YES_BUTTON,
            TaskDialogAction::No => TDCBF_NO_BUTTON,
            TaskDialogAction::Okay => TDCBF_OK_BUTTON,
            TaskDialogAction::Cancel => TDCBF_CANCEL_BUTTON,
        }
    }

    /// Returns the action that a button id stands for; `NoAction` for an id
    /// of no button.
    pub fn from_id(id: i32) -> (r: TaskDialogAction)
        ensures
            r == Self::of_id(id),
    {
        if id == IDCANCEL {
            TaskDialogAction::Cancel
        } else if id == IDYES {
            TaskDialogAction::Yes
        } else if id == IDNO {
            TaskDialogAction::No
        } else if id == IDOK {
            TaskDialogAction::Okay
        } else {
            TaskDialogAction::NoAction
        }
    }

    /// Returns the button id of this action; `None` for `NoAction`, which
    /// stands for no button.
    pub fn to_id(&self) -> (r: Option<i32>)
        ensures
            r == self.id(),
    {
        match self {
            TaskDialogAction::Cancel => Some(IDCANCEL),
            TaskDialogAction::Yes => Some(IDYES),
            TaskDialogAction::No => Some(IDNO),
            TaskDialogAction::Okay => Some(IDOK),
            TaskDialogAction::NoAction => None,
        }
    }

    /// Returns the flag that puts the button of this action on a dialog.
    pub fn to_common_button_flag(&self) -> (r: i32)
        ensures
            r == self.button_flag(),
    {
        match self {
            TaskDialogAction::NoAction => 0,
            TaskDialogAction::Yes => TDCBF_YES_BUTTON,
            TaskDialogAction::No => TDCBF_NO_BUTTON,
            TaskDialogAction::Okay => TDCBF_OK_BUTTON,
            TaskDialogAction::Cancel => TDCBF_CANCEL_BUTTON,
        }
    }
}

/// A button id leads back to the action it came from.
pub proof fn lemma_action_id_round_trip(action: TaskDialogAction)
    ensures
        match action.id() {
            Some(id) => TaskDialogAction::of_id(id) == action,
            None => action == TaskDialogAction::NoAction,
        },
{
}

impl TaskDialogSettings {
    /// The settings of a dialog on which nothing has been set: empty texts,
    /// no icon, no buttons, no progress bar.
    pub open spec fn initial() -> TaskDialogSettings {
        TaskDialogSettings {
            title: seq![0u16],
            heading: seq![0u16],
            content: seq![0u16],
            footer: seq![0u16],
            icon: TaskDialogIcon::NoIcon,
            allow_hyperlinks: false,
            verification_text: seq![0u16],
            initial_verification: false,
            buttons: Seq::<TaskDialogAction>::empty(),
            progress: false,
            progress_min: 0,
            progress_max: 100,
        }
    }

    /// The dialog flags that these settings call for.
    pub open spec fn flags(self) -> i32 {
        (if self.allow_hyperlinks {
            TDF_ENABLE_HYPERLINKS
        } else {
            0i32
        }) | (if self.initial_verification {
            TDF_VERIFICATION_FLAG_CHECKED
        } else {
            0i32
        }) | (if self.progress {
            TDF_CALLBACK_TIMER | TDF_SHOW_PROGRESS_BAR
        } else {
            0i32
        })
    }

    /// The flags of the buttons `buttons`, all together.
    pub open spec fn button_flags(buttons: Seq<TaskDialogAction>) -> i32
        decreases buttons.len(),
    {
        if buttons.len() == 0 {
            0
        } else {
            Self::button_flags(buttons.drop_last()) | buttons.last().button_flag()
        }
    }
}

impl TaskDialogResult {
    /// The result of a dialog that ended with the button `button_id` and the
    /// verification checkbox in the state `verified`. `progress` is what the
    /// task had reached by then, if the dialog showed progress; it is
    /// reported only if it reached `progress_max`, which means that the task
    /// was completed.
    pub open spec fn of(button_id: i32, verified: bool, progress: Option<u32>, progress_max: u16) -> TaskDialogResult {
        TaskDialogResult {
            verified,
            action: TaskDialogAction::of_id(button_id),
            progress: match progress {
                Some(reached) => if reached >= progress_max {
                    Some(reached)
                } else {
                    None
                },
                None => None,
            },
        }
    }

    /// Puts the result of a dialog together.
    pub fn new(button_id: i32, verified: bool, progress: Option<u32>, progress_max: u16) -> (r:
        TaskDialogResult)
        ensures
            r == Self::of(button_id, verified, progress, progress_max),
    {
        let completed = match progress {
            Some(reached) => if reached >= progress_max as u32 {
                Some(reached)
            } else {
                None
            },
            None => None,
        };
        TaskDialogResult { verified, action: TaskDialogAction::from_id(button_id), progress: completed }
    }
}

impl TaskDialogCallbackData {
    /// The state after the notification `notification` from the dialog
    /// window `hwnd`, what has to be done for it, and the result to return to
    /// the dialog. `progress` is what the task has reached at this moment.
    ///
    /// - When the dialog has been constructed, its window is remembered, and
    ///   the range of the progress bar is set if the dialog shows progress.
    /// - On a tick of the timer the progress bar is moved, if there is one.
    /// - A click on a hyperlink opens it.
    /// - A click on a button after the task has been completed ends the
    ///   dialog as if by its OK button; the result `S_FALSE` keeps the button
    ///   that was clicked from closing it in its own way.
    /// Everything else is passed over.
    pub open spec fn notified(self, hwnd: isize, notification: u32, progress: u32) -> (
        TaskDialogCallbackData,
        TaskDialogCommand,
        i32,
    ) {
        if notification == TDN_DIALOG_CONSTRUCTED {
            (
                TaskDialogCallbackData { dialog_handle: hwnd, ..self },
                if self.dialog_progress {
                    TaskDialogCommand::SetProgressRange(
                        packed(self.dialog_progress_min, self.dialog_progress_max),
                    )
                } else {
                    TaskDialogCommand::Nothing
                },
                S_OK,
            )
        } else if notification == TDN_TIMER {
            (
                self,
                if self.dialog_progress {
                    TaskDialogCommand::SetProgressPosition(progress)
                } else {
                    TaskDialogCommand::Nothing
                },
                S_OK,
            )
        } else if notification == TDN_HYPERLINK_CLICKED {
            (self, TaskDialogCommand::OpenHyperlink, S_OK)
        } else if notification == TDN_BUTTON_CLICKED && self.dialog_progress && progress
            >= self.dialog_progress_max {
            (self, TaskDialogCommand::EndWithOk, S_FALSE)
        } else {
            (self, TaskDialogCommand::Nothing, S_OK)
        }
    }

    /// Handles a notification of the dialog: returns what has to be done for
    /// it and the result to return to the dialog.
    pub fn dialog_notification_callback(&mut self, hwnd: isize, notification: u32, progress: u32) -> (r: (
        TaskDialogCommand,
        i32,
    ))
        ensures
            (*final(self), r.0, r.1) == old(self).notified(hwnd, notification, progress),
    {
        if notification == TDN_DIALOG_CONSTRUCTED {
            self.dialog_handle = hwnd;
            if self.dialog_progress {
                let range = pack_words(self.dialog_progress_min, self.dialog_progress_max);
                return (TaskDialogCommand::SetProgressRange(range), S_OK);
            }
        } else if notification == TDN_TIMER {
            if self.dialog_progress {
                return (TaskDialogCommand::SetProgressPosition(progress), S_OK);
            }
        } else if notification == TDN_HYPERLINK_CLICKED {
            return (TaskDialogCommand::OpenHyperlink, S_OK);
        } else if notification == TDN_BUTTON_CLICKED {
            if self.dialog_progress && progress >= self.dialog_progress_max as u32 {
                return (TaskDialogCommand::EndWithOk, S_FALSE);
            }
        }
        (TaskDialogCommand::Nothing, S_OK)
    }
}

impl TaskDialogBuilder {
    /// Begins a dialog on which nothing has been set.
    pub fn new() -> (r: Self)
        ensures
            r@ == TaskDialogSettings::initial(),
    {
        let r = Self {
            dialog_title_utf16_nul: vec![0u16],
            dialog_heading_utf16_nul: vec![0u16],
            dialog_content_utf16_nul: vec![0u16],
            dialog_footer_utf16_nul: vec![0u16],
            dialog_icon: TaskDialogIcon::NoIcon,
            dialog_allow_hyperlinks: false,
            dialog_verification_text_utf16_nul: vec![0u16],
            initial_verification_value: false,
            dialog_buttons: Vec::new(),
            dialog_progress: false,
            dialog_progress_min: 0,
            dialog_progress_max: 100,
        };
        proof {
            let initial = TaskDialogSettings::initial();
            assert(r@.title =~= initial.title);
            assert(r@.heading =~= initial.heading);
            assert(r@.content =~= initial.content);
            assert(r@.footer =~= initial.footer);
            assert(r@.verification_text =~= initial.verification_text);
            assert(r@.buttons =~= initial.buttons);
        }
        r
    }

    /// Sets the text of the title bar.
    pub fn set_title(&mut self, title: &str) -> (r: &mut Self)
        ensures
            r@ == (TaskDialogSettings { title: utf16_nul(title@), ..old(self)@ }),
            *final(self) == *final(r),
    {
        self.dialog_title_utf16_nul = encode_utf16_nul(title);
        self
    }

    /// Sets the heading, the main instruction of the dialog.
    pub fn set_heading(&mut self, heading: &str) -> (r: &mut Self)
        ensures
            r@ == (TaskDialogSettings { heading: utf16_nul(heading@), ..old(self)@ }),
            *final(self) == *final(r),
    {
        self.dialog_heading_utf16_nul = encode_utf16_nul(heading);
        self
    }

    /// Sets the text below the heading.
    pub fn set_content(&mut self, content: &str) -> (r: &mut Self)
        ensures
            r@ == (TaskDialogSettings { content: utf16_nul(content@), ..old(self)@ }),
            *final(self) == *final(r),
    {
        self.dialog_content_utf16_nul = encode_utf16_nul(content);
        self
    }

    /// Sets the text at the bottom of the dialog.
    pub fn set_footer(&mut self, footer: &str) -> (r: &mut Self)
        ensures
            r@ == (TaskDialogSettings { footer: utf16_nul(footer@), ..old(self)@ }),
            *final(self) == *final(r),
    {
        self.dialog_footer_utf16_nul = encode_utf16_nul(footer);
        self
    }

    /// Sets the icon.
    pub fn set_icon(&mut self, icon: TaskDialogIcon) -> (r: &mut Self)
        ensures
            r@ == (TaskDialogSettings { icon, ..old(self)@ }),
            *final(self) == *final(r),
    {
        self.dialog_icon = icon;
        self
    }

    /// Adds a button.
    pub fn add_button(&mut self, action: TaskDialogAction) -> (r: &mut Self)
        ensures
            r@ == (TaskDialogSettings { buttons: old(self)@.buttons.push(action), ..old(self)@ }),
            *final(self) == *final(r),
    {
        self.dialog_buttons.push(action);
        self
    }

    /// Adds a checkbox with the text `label` at the bottom of the dialog;
    /// `initial_state` says whether it starts checked. Whether it was checked
    /// when the dialog ended is part of the dialog's result.
    pub fn set_verification(&mut self, label: &str, initial_state: bool) -> (r: &mut Self)
        ensures
            r@ == (TaskDialogSettings {
                verification_text: utf16_nul(label@),
                initial_verification: initial_state,
                ..old(self)@
            }),
            *final(self) == *final(r),
    {
        self.initial_verification_value = initial_state;
        self.dialog_verification_text_utf16_nul = encode_utf16_nul(label);
        self
    }

    /// Allows or forbids hyperlinks in the texts of the dialog. They are
    /// forbidden unless this is called.
    pub fn set_hyperlinks_enabled(&mut self, enabled: bool) -> (r: &mut Self)
        ensures
            r@ == (TaskDialogSettings { allow_hyperlinks: enabled, ..old(self)@ }),
            *final(self) == *final(r),
    {
        self.dialog_allow_hyperlinks = enabled;
        self
    }

    /// Gives the dialog a progress bar that is empty at `value_min` and full
    /// at `value_max`.
    pub fn set_progress(&mut self, value_min: u16, value_max: u16) -> (r: &mut Self)
        ensures
            r@ == (TaskDialogSettings {
                progress: true,
                progress_min: value_min,
                progress_max: value_max,
                ..old(self)@
            }),
            *final(self) == *final(r),
    {
        self.dialog_progress = true;
        self.dialog_progress_min = value_min;
        self.dialog_progress_max = value_max;
        self
    }

    /// Returns the title as it is handed to the system.
    pub fn title(&self) -> (r: &Vec<u16>)
        ensures
            r@ == self@.title,
    {
        &self.dialog_title_utf16_nul
    }

    /// Returns the heading as it is handed to the system.
    pub fn heading(&self) -> (r: &Vec<u16>)
        ensures
            r@ == self@.heading,
    {
        &self.dialog_heading_utf16_nul
    }

    /// Returns the content as it is handed to the system.
    pub fn content(&self) -> (r: &Vec<u16>)
        ensures
            r@ == self@.content,
    {
        &self.dialog_content_utf16_nul
    }

    /// Returns the footer as it is handed to the system.
    pub fn footer(&self) -> (r: &Vec<u16>)
        ensures
            r@ == self@.footer,
    {
        &self.dialog_footer_utf16_nul
    }

    /// Returns the text of the verification checkbox as it is handed to the
    /// system.
    pub fn verification_text(&self) -> (r: &Vec<u16>)
        ensures
            r@ == self@.verification_text,
    {
        &self.dialog_verification_text_utf16_nul
    }

    /// Returns the icon.
    pub fn icon(&self) -> (r: TaskDialogIcon)
        ensures
            r == self@.icon,
    {
        self.dialog_icon
    }

    /// Returns the dialog flags that the settings call for.
    pub fn flags(&self) -> (r: i32)
        ensures
            r == self@.flags(),
    {
        let mut dialog_flags: i32 = 0;
        if self.dialog_allow_hyperlinks {
            dialog_flags = dialog_flags | TDF_ENABLE_HYPERLINKS;
        }
        if self.initial_verification_value {
            dialog_flags = dialog_flags | TDF_VERIFICATION_FLAG_CHECKED;
        }
        if self.dialog_progress {
            dialog_flags = dialog_flags | (TDF_CALLBACK_TIMER | TDF_SHOW_PROGRESS_BAR);
        }
        assert(forall|a: i32| 0i32 | a == a) by (bit_vector);
        assert(forall|a: i32| a | 0i32 == a) by (bit_vector);
        dialog_flags
    }

    /// Returns the flags of all buttons that were added.
    pub fn common_buttons(&self) -> (r: i32)
        ensures
            r == TaskDialogSettings::button_flags(self@.buttons),
    {
        let mut flags: i32 = 0;
        let mut i: usize = 0;
        while i < self.dialog_buttons.len()
            invariant
                0 <= i <= self.dialog_buttons.len(),
                flags == TaskDialogSettings::button_flags(self.dialog_buttons@.take(i as int)),
            decreases self.dialog_buttons.len() - i,
        {
            proof {
                assert(self.dialog_buttons@.take(i + 1).drop_last() =~= self.dialog_buttons@.take(
                    i as int,
                ));
            }
            flags = flags | self.dialog_buttons[i].to_common_button_flag();
            i = i + 1;
        }
        proof {
            assert(self.dialog_buttons@.take(i as int) =~= self.dialog_buttons@);
        }
        flags
    }

    /// Returns what the callback of the dialog starts with: no window yet,
    /// and the progress settings of the dialog.
    pub fn callback_data(&self) -> (r: TaskDialogCallbackData)
        ensures
            r == (TaskDialogCallbackData {
                dialog_handle: 0,
                dialog_progress: self@.progress,
                dialog_progress_min: self@.progress_min,
                dialog_progress_max: self@.progress_max,
            }),
    {
        TaskDialogCallbackData {
            dialog_handle: 0,
            dialog_progress: self.dialog_progress,
            dialog_progress_min: self.dialog_progress_min,
            dialog_progress_max: self.dialog_progress_max,
        }
    }
}

} // verus!
