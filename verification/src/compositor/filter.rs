//! The rules by which the windows of the compositor are selected for the
//! switcher, stated over plain values.
//!
//! The list script applies these rules inside the compositor; here they are
//! given as functions so that callers can apply them to any window list.

use vstd::prelude::*;
use crate::compositor::{WindowInfo, WindowModel, window_models};
use crate::text::{chars_of, same_text};

verus! {

/// The class under which the launcher's own window appears, in lower case.
pub const SELF_CLASS: &'static str = "zlaunch";

/// The category of a window, as the compositor reports it.
#[derive(Clone, Copy, Debug, PartialEq, Eq, Structural)]
pub enum WindowKind {
    Normal,
    Dock,
    Desktop,
    Notification,
    Splash,
    Popup,
    Dialog,
}

/// A window as the compositor describes it, before any rule is applied.
#[derive(Clone, Debug)]
pub struct RawWindow {
    pub id: String,
    pub caption: String,
    pub resource_class: String,
    /// The number of the first desktop the window is on, where it is on one.
    pub desktop: Option<i32>,
    pub active: bool,
    pub kind: WindowKind,
}

/// The mathematical value of a [`RawWindow`].
pub struct RawModel {
    pub id: Seq<char>,
    pub caption: Seq<char>,
    pub resource_class: Seq<char>,
    pub desktop: Option<int>,
    pub active: bool,
    pub kind: WindowKind,
}

impl View for RawWindow {
    type V = RawModel;

    open spec fn view(&self) -> RawModel {
        RawModel {
            id: self.id@,
            caption: self.caption@,
            resource_class: self.resource_class@,
            desktop: match self.desktop {
                Some(n) => Some(n as int),
                None => None,
            },
            active: self.active,
            kind: self.kind,
        }
    }
}

/// The values of a list of raw windows, in order.
pub open spec fn raw_models(ws: Seq<RawWindow>) -> Seq<RawModel> {
    Seq::new(ws.len(), |i: int| ws[i]@)
}

/// `c` in lower case, where it is an upper-case letter of the basic alphabet.
pub open spec fn lower_char(c: char) -> char {
    if 'A' <= c && c <= 'Z' {
        ((c as u8) + 32u8) as char
    } else {
        c
    }
}

/// Whether `class` names the launcher itself, whatever the case of its letters.
pub open spec fn is_self_class(class: Seq<char>) -> bool {
    class.map_values(|c: char| lower_char(c)) == SELF_CLASS@
}

/// The workspace of a window: the number of its desktop, and 1 where it has
/// none or the number is 0.
pub open spec fn workspace_of(desktop: Option<int>) -> int {
    match desktop {
        Some(n) => if n != 0 { n } else { 1 },
        None => 1,
    }
}

/// Whether a window is offered to the user.
pub open spec fn is_listed(w: RawModel) -> bool {
    &&& w.kind == WindowKind::Normal
    &&& !is_self_class(w.resource_class)
    &&& w.resource_class.len() > 0
}

/// What is reported of a window that is offered.
pub open spec fn listed(w: RawModel) -> WindowModel {
    WindowModel {
        address: w.id,
        title: if w.caption.len() > 0 { w.caption } else { w.resource_class },
        class: w.resource_class,
        workspace: workspace_of(w.desktop),
        focused: w.active,
    }
}

/// The windows of `ws` that are offered, in the order of `ws`.
pub open spec fn filtered(ws: Seq<RawModel>) -> Seq<WindowModel>
    decreases ws.len(),
{
    if ws.len() == 0 {
        Seq::empty()
    } else if is_listed(ws.last()) {
        filtered(ws.drop_last()).push(listed(ws.last()))
    } else {
        filtered(ws.drop_last())
    }
}

/// Every window in the filtered list stems from a window of the input that
/// passes the rules: no window of an excluded category, of the launcher's own
/// class or without a class is ever reported.
pub proof fn lemma_kept_is_listed(ws: Seq<RawModel>, k: int)
    requires
        0 <= k < filtered(ws).len(),
    ensures
        exists|j: int|
            0 <= j < ws.len() && is_listed(#[trigger] ws[j]) && filtered(ws)[k] == listed(ws[j]),
    decreases ws.len(),
{
    let init = ws.drop_last();
    if k < filtered(init).len() {
        lemma_kept_is_listed(init, k);
        let j = choose|j: int|
            0 <= j < init.len() && is_listed(#[trigger] init[j]) && filtered(init)[k] == listed(
                init[j],
            );
        assert(ws[j] == init[j]);
        assert(is_listed(ws[j]) && filtered(ws)[k] == listed(ws[j]));
    } else {
        let j = ws.len() - 1;
        assert(is_listed(ws[j]) && filtered(ws)[k] == listed(ws[j]));
    }
}

/// Every window of the input that passes the rules is reported.
pub proof fn lemma_listed_is_kept(ws: Seq<RawModel>, j: int)
    requires
        0 <= j < ws.len(),
        is_listed(ws[j]),
    ensures
        filtered(ws).contains(listed(ws[j])),
    decreases ws.len(),
{
    let init = ws.drop_last();
    let f = filtered(ws);
    if j < init.len() {
        assert(init[j] == ws[j]);
        lemma_listed_is_kept(init, j);
        let k = choose|k: int| 0 <= k < filtered(init).len() && filtered(init)[k] == listed(init[j]);
        assert(f[k] == listed(ws[j]));
    } else {
        assert(f[f.len() - 1] == listed(ws[j]));
    }
}

/// A list that holds only windows of the excluded kinds, of the launcher's
/// own class or without a class is filtered to nothing.
pub proof fn lemma_all_excluded_gives_nothing(ws: Seq<RawModel>)
    requires
        forall|j: int| 0 <= j < ws.len() ==> !is_listed(#[trigger] ws[j]),
    ensures
        filtered(ws) == Seq::<WindowModel>::empty(),
    decreases ws.len(),
{
    if ws.len() > 0 {
        assert(forall|j: int| 0 <= j < ws.len() - 1 ==> ws.drop_last()[j] == ws[j]);
        lemma_all_excluded_gives_nothing(ws.drop_last());
        assert(!is_listed(ws[ws.len() - 1]));
    }
}

/// Filtering a list is filtering its parts: the order of the input is kept.
pub proof fn lemma_filtered_concat(a: Seq<RawModel>, b: Seq<RawModel>)
    ensures
        filtered(a + b) == filtered(a) + filtered(b),
    decreases b.len(),
{
    if b.len() == 0 {
        assert(a + b =~= a);
        assert(filtered(a) + filtered(b) =~= filtered(a));
    } else {
        lemma_filtered_concat(a, b.drop_last());
        assert((a + b).drop_last() =~= a + b.drop_last());
        assert((a + b).last() == b.last());
        assert(filtered(a + b) =~= filtered(a) + filtered(b));
    }
}

/// The workspace number reported for a window on the given desktop.
pub fn resolve_workspace(desktop: Option<i32>) -> (r: i32)
    ensures
        r as int == workspace_of(
            match desktop {
                Some(n) => Some(n as int),
                None => None,
            },
        ),
        desktop is None ==> r == 1,
{
    match desktop {
        Some(n) => if n != 0 { n } else { 1 },
        None => 1,
    }
}

fn lower(c: char) -> (r: char)
    ensures
        r == lower_char(c),
{
    if 'A' <= c && c <= 'Z' {
        ((c as u8) + 32u8) as char
    } else {
        c
    }
}

/// Whether `class` names the launcher itself, whatever the case of its letters.
pub fn names_launcher(class: &str) -> (r: bool)
    ensures
        r == is_self_class(class@),
{
    let have = chars_of(class);
    let want = chars_of(SELF_CLASS);
    if have.len() != want.len() {
        return false;
    }
    let ghost lowered = class@.map_values(|c: char| lower_char(c));
    let mut i: usize = 0;
    while i < have.len()
        invariant
            i <= have.len(),
            have.len() == want.len(),
            have@ == class@,
            want@ == SELF_CLASS@,
            lowered == class@.map_values(|c: char| lower_char(c)),
            forall|k: int| 0 <= k < i ==> lowered[k] == want@[k],
        decreases have.len() - i,
    {
        if lower(have[i]) != want[i] {
            assert(lowered[i as int] != want@[i as int]);
            return false;
        }
        i += 1;
    }
    assert(lowered =~= want@);
    true
}

/// Whether a window is offered to the user.
pub fn passes(w: &RawWindow) -> (r: bool)
    ensures
        r == is_listed(w@),
{
    let normal = match w.kind {
        WindowKind::Normal => true,
        _ => false,
    };
    normal && !names_launcher(w.resource_class.as_str()) && w.resource_class.as_str().unicode_len()
        > 0
}

/// What is reported of a window that is offered.
pub fn describe(w: &RawWindow) -> (r: WindowInfo)
    ensures
        r@ == listed(w@),
{
    let title = if w.caption.as_str().unicode_len() > 0 {
        w.caption.clone()
    } else {
        w.resource_class.clone()
    };
    WindowInfo {
        address: w.id.clone(),
        title,
        class: w.resource_class.clone(),
        workspace: resolve_workspace(w.desktop),
        focused: w.active,
    }
}

/// Selects the windows that are offered to the user, in the order in which
/// the compositor enumerates them.
pub fn filter_windows(windows: &Vec<RawWindow>) -> (r: Vec<WindowInfo>)
    ensures
        window_models(r@) == filtered(raw_models(windows@)),
{
    let mut out: Vec<WindowInfo> = Vec::new();
    let mut i: usize = 0;
    while i < windows.len()
        invariant
            i <= windows.len(),
            window_models(out@) == filtered(raw_models(windows@).take(i as int)),
        decreases windows.len() - i,
    {
        let ghost before = raw_models(windows@).take(i as int);
        let ghost after = raw_models(windows@).take(i + 1);
        proof {
            assert(after.drop_last() =~= before);
            assert(after.last() == windows@[i as int]@);
        }
        if passes(&windows[i]) {
            let info = describe(&windows[i]);
            let ghost prev = out@;
            out.push(info);
            proof {
                assert(window_models(out@) =~= window_models(prev).push(info@));
            }
        }
        i += 1;
    }
    proof {
        assert(raw_models(windows@).take(windows.len() as int) =~= raw_models(windows@));
    }
    out
}

/// The position of the first window with the given identity, if there is one.
pub open spec fn target_of(ids: Seq<WindowModel>, identity: Seq<char>) -> Option<int>
    decreases ids.len(),
{
    if ids.len() == 0 {
        None
    } else {
        match target_of(ids.drop_last(), identity) {
            Some(k) => Some(k),
            None => if ids.last().address == identity {
                Some(ids.len() - 1)
            } else {
                None
            },
        }
    }
}

/// A focus request has a target exactly if some window bears the identity;
/// with an identity that no window bears it has none, and nothing is changed.
pub proof fn lemma_target_exists(ws: Seq<WindowModel>, identity: Seq<char>)
    ensures
        target_of(ws, identity) is None <==> forall|j: int|
            0 <= j < ws.len() ==> (#[trigger] ws[j]).address != identity,
        target_of(ws, identity) matches Some(k) ==> 0 <= k < ws.len() && ws[k].address == identity
            && forall|j: int| 0 <= j < k ==> (#[trigger] ws[j]).address != identity,
    decreases ws.len(),
{
    if ws.len() > 0 {
        lemma_target_exists(ws.drop_last(), identity);
        assert(forall|j: int| 0 <= j < ws.len() - 1 ==> ws.drop_last()[j] == ws[j]);
        if target_of(ws.drop_last(), identity) is Some {
            let k = target_of(ws.drop_last(), identity)->0;
            assert(ws.drop_last()[k] == ws[k]);
        }
    }
}

/// Finds the window that a focus request with `identity` activates: the first
/// one that bears the identity, or none.
pub fn focus_target(windows: &Vec<WindowInfo>, identity: &str) -> (r: Option<usize>)
    ensures
        match target_of(window_models(windows@), identity@) {
            Some(k) => r == Some(k as usize),
            None => r is None,
        },
{
    let mut i: usize = 0;
    while i < windows.len()
        invariant
            i <= windows.len(),
            target_of(window_models(windows@).take(i as int), identity@) is None,
        decreases windows.len() - i,
    {
        let ghost after = window_models(windows@).take(i + 1);
        proof {
            assert(after.drop_last() =~= window_models(windows@).take(i as int));
            assert(after.last() == windows@[i as int]@);
        }
        if same_text(windows[i].address.as_str(), identity) {
            proof {
                lemma_target_prefix(window_models(windows@), identity@, i + 1);
            }
            return Some(i);
        }
        i += 1;
    }
    proof {
        assert(window_models(windows@).take(windows.len() as int) =~= window_models(windows@));
    }
    None
}

/// A target found in a prefix of a list is the target in the whole list.
pub proof fn lemma_target_prefix(ws: Seq<WindowModel>, identity: Seq<char>, n: int)
    requires
        0 <= n <= ws.len(),
        target_of(ws.take(n), identity) is Some,
    ensures
        target_of(ws, identity) == target_of(ws.take(n), identity),
    decreases ws.len() - n,
{
    if n < ws.len() {
        assert(ws.take(n + 1).drop_last() =~= ws.take(n));
        lemma_target_prefix(ws, identity, n + 1);
    } else {
        assert(ws.take(n) =~= ws);
    }
}

} // verus!
