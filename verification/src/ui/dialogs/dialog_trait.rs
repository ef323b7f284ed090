//! The common shape of dialogs: what a dialog answers, the labels of its
//! buttons, and the open/closed state that every dialog keeps.
use vstd::prelude::*;

verus! {

/// What a dialog answered in one frame.
#[derive(Debug, Clone, PartialEq, Eq)]
pub enum DialogResult<T> {
    /// Nothing happened; the dialog stays open.
    Idle,
    /// The user confirmed, with the dialog's data.
    Confirm(T),
    /// The user cancelled.
    Cancel,
}

/// The confirmed value, if any.
pub open spec fn confirmed_value<T>(r: DialogResult<T>) -> Option<T> {
    match r {
        DialogResult::Confirm(v) => Some(v),
        _ => Option::None,
    }
}

impl<T> DialogResult<T> {
    /// Whether the user confirmed.
    pub fn is_confirm(&self) -> (r: bool)
        ensures
            r == (*self is Confirm),
    {
        match self {
            DialogResult::Confirm(_) => true,
            _ => false,
        }
    }

    /// Whether the user cancelled.
    pub fn is_cancel(&self) -> (r: bool)
        ensures
            r == (*self is Cancel),
    {
        match self {
            DialogResult::Cancel => true,
            _ => false,
        }
    }

    /// Whether nothing happened.
    pub fn is_none(&self) -> (r: bool)
        ensures
            r == (*self is Idle),
    {
        match self {
            DialogResult::Idle => true,
            _ => false,
        }
    }

    /// The confirmed value, if the user confirmed.
    pub fn confirmed(self) -> (r: Option<T>)
        ensures
            r == confirmed_value(self),
    {
        match self {
            DialogResult::Confirm(value) => Some(value),
            _ => Option::None,
        }
    }

    /// `Some` of the confirmed value, `None` otherwise.
    pub fn into_option(self) -> (r: Option<T>)
        ensures
            r == confirmed_value(self),
    {
        self.confirmed()
    }

    /// Applies `f` to a confirmed value; `Idle` and `Cancel` stay as they are.
    pub fn map<U, F: FnOnce(T) -> U>(self, f: F) -> (r: DialogResult<U>)
        requires
            self matches DialogResult::Confirm(v) ==> f.requires((v,)),
        ensures
            self is Idle ==> r is Idle,
            self is Cancel ==> r is Cancel,
            self matches DialogResult::Confirm(v) ==> (r matches DialogResult::Confirm(u) && f.ensures(
                (v,),
                u,
            )),
    {
        match self {
            DialogResult::Idle => DialogResult::Idle,
            DialogResult::Confirm(value) => DialogResult::Confirm(f(value)),
            DialogResult::Cancel => DialogResult::Cancel,
        }
    }
}

impl<T> Default for DialogResult<T> {
    fn default() -> (r: Self)
        ensures
            r is Idle,
    {
        DialogResult::Idle
    }
}

/// The labels and keys of a dialog's two buttons.
#[derive(Debug, Clone)]
pub struct DialogButtons {
    pub confirm_text: String,
    pub cancel_text: String,
    pub confirm_shortcut: String,
    pub cancel_shortcut: String,
    pub show_cancel: bool,
    pub confirm_danger: bool,
}

/// A label with its key in brackets, or the bare label when there is no key.
pub open spec fn button_label(text: Seq<char>, shortcut: Seq<char>) -> Seq<char> {
    if shortcut.len() == 0 {
        text
    } else {
        text + " ["@ + shortcut + "]"@
    }
}

/// Whether the buttons hold the given texts and flags.
pub open spec fn buttons_are(
    b: DialogButtons,
    confirm_text: Seq<char>,
    cancel_text: Seq<char>,
    confirm_shortcut: Seq<char>,
    cancel_shortcut: Seq<char>,
    show_cancel: bool,
    confirm_danger: bool,
) -> bool {
    &&& b.confirm_text@ == confirm_text
    &&& b.cancel_text@ == cancel_text
    &&& b.confirm_shortcut@ == confirm_shortcut
    &&& b.cancel_shortcut@ == cancel_shortcut
    &&& b.show_cancel == show_cancel
    &&& b.confirm_danger == confirm_danger
}

impl Default for DialogButtons {
    fn default() -> (r: Self)
        ensures
            buttons_are(r, "确认"@, "取消"@, "Enter"@, "Esc"@, true, false),
    {
        DialogButtons {
            confirm_text: String::from_str("确认"),
            cancel_text: String::from_str("取消"),
            confirm_shortcut: String::from_str("Enter"),
            cancel_shortcut: String::from_str("Esc"),
            show_cancel: true,
            confirm_danger: false,
        }
    }
}

impl DialogButtons {
    /// A single close button, for dialogs that only inform.
    pub fn close_only() -> (r: Self)
        ensures
            buttons_are(r, "关闭"@, seq![], "Enter/Esc"@, seq![], false, false),
    {
        DialogButtons {
            confirm_text: String::from_str("关闭"),
            cancel_text: String::new(),
            confirm_shortcut: String::from_str("Enter/Esc"),
            cancel_shortcut: String::new(),
            show_cancel: false,
            confirm_danger: false,
        }
    }

    /// A dangerous confirmation, answered with `y` or `n`.
    pub fn danger(confirm_text: &str) -> (r: Self)
        ensures
            buttons_are(r, confirm_text@, "取消"@, "y"@, "n"@, true, true),
    {
        DialogButtons {
            confirm_text: String::from_str(confirm_text),
            cancel_text: String::from_str("取消"),
            confirm_shortcut: String::from_str("y"),
            cancel_shortcut: String::from_str("n"),
            show_cancel: true,
            confirm_danger: true,
        }
    }

    /// Save and cancel.
    pub fn save_cancel() -> (r: Self)
        ensures
            buttons_are(r, "保存"@, "取消"@, "Ctrl+S"@, "Esc"@, true, false),
    {
        DialogButtons {
            confirm_text: String::from_str("保存"),
            cancel_text: String::from_str("取消"),
            confirm_shortcut: String::from_str("Ctrl+S"),
            cancel_shortcut: String::from_str("Esc"),
            show_cancel: true,
            confirm_danger: false,
        }
    }

    /// Export and cancel.
    pub fn export_cancel() -> (r: Self)
        ensures
            buttons_are(r, "导出"@, "取消"@, "Enter"@, "Esc"@, true, false),
    {
        DialogButtons {
            confirm_text: String::from_str("导出"),
            cancel_text: String::from_str("取消"),
            confirm_shortcut: String::from_str("Enter"),
            cancel_shortcut: String::from_str("Esc"),
            show_cancel: true,
            confirm_danger: false,
        }
    }

    /// The confirm button's text with its key.
    pub fn confirm_label(&self) -> (r: String)
        ensures
            r@ == button_label(self.confirm_text@, self.confirm_shortcut@),
    {
        labelled(self.confirm_text.as_str(), self.confirm_shortcut.as_str())
    }

    /// The cancel button's text with its key.
    pub fn cancel_label(&self) -> (r: String)
        ensures
            r@ == button_label(self.cancel_text@, self.cancel_shortcut@),
    {
        labelled(self.cancel_text.as_str(), self.cancel_shortcut.as_str())
    }
}

fn labelled(text: &str, shortcut: &str) -> (r: String)
    ensures
        r@ == button_label(text@, shortcut@),
{
    if shortcut.is_empty() {
        String::from_str(text)
    } else {
        let mut s = String::from_str(text);
        s.append(" [");
        s.append(shortcut);
        s.append("]");
        s
    }
}

/// The open/closed state of a dialog.
pub trait DialogState: Sized + Default {
    spec fn spec_is_open(&self) -> bool;

    /// Whether the dialog is shown.
    fn is_open(&self) -> (r: bool)
        ensures
            r == self.spec_is_open(),
    ;

    /// Shows the dialog.
    fn open(&mut self)
        ensures
            final(self).spec_is_open(),
    ;

    /// Hides the dialog.
    fn close(&mut self)
        ensures
            !final(self).spec_is_open(),
    ;

    /// Closes the dialog and forgets its data: the state becomes the default.
    fn reset(&mut self)
        ensures
            call_ensures(Self::default, (), *final(self)),
    {
        *self = Self::default();
    }
}

/// A dialog that needs nothing but whether it is shown.
#[derive(Debug, Clone)]
pub struct SimpleDialogState {
    pub show: bool,
}

impl Default for SimpleDialogState {
    fn default() -> (r: Self)
        ensures
            !r.show,
    {
        SimpleDialogState { show: false }
    }
}

impl DialogState for SimpleDialogState {
    open spec fn spec_is_open(&self) -> bool {
        self.show
    }

    fn is_open(&self) -> (r: bool) {
        self.show
    }

    fn open(&mut self) {
        self.show = true;
    }

    fn close(&mut self) {
        self.show = false;
    }
}

/// A dialog that is shown or not and carries data.
#[derive(Debug, Clone)]
pub struct DataDialogState<T: Default> {
    pub show: bool,
    pub data: T,
}

impl<T: Default> Default for DataDialogState<T> {
    fn default() -> (r: Self)
        ensures
            !r.show,
    {
        DataDialogState { show: false, data: T::default() }
    }
}

impl<T: Default> DialogState for DataDialogState<T> {
    open spec fn spec_is_open(&self) -> bool {
        self.show
    }

    fn is_open(&self) -> (r: bool) {
        self.show
    }

    fn open(&mut self) {
        self.show = true;
    }

    fn close(&mut self) {
        self.show = false;
    }
}

impl<T: Default> DataDialogState<T> {
    /// Shows the dialog with the given data.
    pub fn open_with(&mut self, data: T)
        ensures
            final(self).show,
            final(self).data == data,
    {
        self.show = true;
        self.data = data;
    }

    /// The data, for editing.
    pub fn data_mut(&mut self) -> (r: &mut T)
        ensures
            *r == old(self).data,
            final(self).data == *final(r),
            final(self).show == old(self).show,
    {
        &mut self.data
    }

    /// The data.
    pub fn data(&self) -> (r: &T)
        ensures
            *r == self.data,
    {
        &self.data
    }
}

} // verus!
