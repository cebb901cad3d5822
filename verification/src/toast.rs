//! Transient notifications of the front end: the list of those on screen and
//! how each kind is drawn.

use vstd::prelude::*;

verus! {

/// How long a notification stays on screen, in milliseconds.
pub const TOAST_LIFETIME_MS: u64 = 3000;

/// The kind of a notification.
#[derive(Clone, Copy, PartialEq, Eq, Debug, Structural)]
pub enum ToastType {
    Success,
    Error,
    Info,
}

/// One notification on screen.
#[derive(Clone, Debug, PartialEq, Eq)]
pub struct ToastMessage {
    pub message: String,
    pub toast_type: ToastType,
    /// The number under which the notification is removed again.
    pub id: u64,
}

/// A [`ToastMessage`] with its text as a character sequence.
pub ghost struct ToastView {
    pub message: Seq<char>,
    pub toast_type: ToastType,
    pub id: u64,
}

impl View for ToastMessage {
    type V = ToastView;

    open spec fn view(&self) -> ToastView {
        ToastView { message: self.message@, toast_type: self.toast_type, id: self.id }
    }
}

/// The views of a list of notifications, in order.
pub open spec fn toast_views(toasts: Seq<ToastMessage>) -> Seq<ToastView> {
    toasts.map_values(|t: ToastMessage| t@)
}

/// The notifications of `toasts` whose number is not `id`, in order.
pub open spec fn without_id(toasts: Seq<ToastView>, id: u64) -> Seq<ToastView>
    decreases toasts.len(),
{
    if toasts.len() == 0 {
        toasts
    } else if toasts.last().id == id {
        without_id(toasts.drop_last(), id)
    } else {
        without_id(toasts.drop_last(), id).push(toasts.last())
    }
}

/// The sign drawn in front of a notification.
pub open spec fn icon_of(toast_type: ToastType) -> Seq<char> {
    match toast_type {
        ToastType::Success => "✓"@,
        ToastType::Error => "✕"@,
        ToastType::Info => "ℹ"@,
    }
}

/// The style class of a notification.
pub open spec fn class_of(toast_type: ToastType) -> Seq<char> {
    match toast_type {
        ToastType::Success => "success"@,
        ToastType::Error => "error"@,
        ToastType::Info => "info"@,
    }
}

impl ToastType {
    /// The sign drawn in front of a notification of this kind.
    pub fn icon(&self) -> (icon: &'static str)
        ensures
            icon@ == icon_of(*self),
    {
        match self {
            ToastType::Success => "✓",
            ToastType::Error => "✕",
            ToastType::Info => "ℹ",
        }
    }

    /// The style class of a notification of this kind.
    pub fn class(&self) -> (class: &'static str)
        ensures
            class@ == class_of(*self),
    {
        match self {
            ToastType::Success => "success",
            ToastType::Error => "error",
            ToastType::Info => "info",
        }
    }
}

/// Puts a notification on screen, after those already there.
pub fn show_toast(toasts: &mut Vec<ToastMessage>, message: String, toast_type: ToastType, id: u64)
    ensures
        toast_views(final(toasts)@) == toast_views(old(toasts)@).push(
            ToastView { message: message@, toast_type, id },
        ),
{
    toasts.push(ToastMessage { message, toast_type, id });
}

/// Takes every notification numbered `id` off the screen. The others stay in
/// their order.
pub fn remove_toast(toasts: &mut Vec<ToastMessage>, id: u64)
    ensures
        toast_views(final(toasts)@) == without_id(toast_views(old(toasts)@), id),
{
    let ghost before = toast_views(toasts@);
    let mut kept: Vec<ToastMessage> = Vec::new();
    let n: usize = toasts.len();
    let mut i: usize = 0;
    while i < n
        invariant
            n == toasts@.len(),
            i <= n,
            before == toast_views(toasts@),
            toast_views(kept@) == without_id(before.take(i as int), id),
        decreases n - i,
    {
        assert(before.take(i + 1).drop_last() =~= before.take(i as int));
        if toasts[i].id != id {
            let toast = &toasts[i];
            kept.push(
                ToastMessage {
                    message: toast.message.clone(),
                    toast_type: toast.toast_type,
                    id: toast.id,
                },
            );
        }
        i = i + 1;
    }
    assert(before.take(n as int) =~= before);
    *toasts = kept;
}

/// After a removal no notification with that number is left, and every
/// other one is still there.
pub proof fn lemma_without_id(toasts: Seq<ToastView>, id: u64)
    ensures
        forall|k: int|
            0 <= k < without_id(toasts, id).len() ==> (#[trigger] without_id(toasts, id)[k]).id
                != id,
        forall|k: int|
            0 <= k < toasts.len() && toasts[k].id != id ==> without_id(toasts, id).contains(
                #[trigger] toasts[k],
            ),
        without_id(toasts, id).len() <= toasts.len(),
    decreases toasts.len(),
{
    if toasts.len() > 0 {
        let front = toasts.drop_last();
        lemma_without_id(front, id);
        let kept = without_id(toasts, id);
        assert forall|k: int| 0 <= k < toasts.len() && toasts[k].id != id implies kept.contains(
            #[trigger] toasts[k],
        ) by {
            if k < front.len() {
                let j = choose|j: int|
                    0 <= j < without_id(front, id).len() && without_id(front, id)[j] == front[k];
                assert(kept[j] == toasts[k]);
            } else {
                assert(kept[kept.len() - 1] == toasts[k]);
            }
        }
    }
}

} // verus!
