//! The launcher's navigation state: the stack of views and what each shows.

use vstd::prelude::*;
use crate::compositor::WindowInfo;
use crate::emoji::EmojiItem;

verus! {

/// An installed application as the launcher lists it.
#[derive(Clone, Debug)]
pub struct ApplicationItem {
    pub id: String,
    pub name: String,
    pub command: String,
    pub description: Option<String>,
    pub terminal: bool,
}

/// The mathematical value of an [`ApplicationItem`].
pub struct ApplicationModel {
    pub id: Seq<char>,
    pub name: Seq<char>,
    pub command: Seq<char>,
    pub description: Option<Seq<char>>,
    pub terminal: bool,
}

impl View for ApplicationItem {
    type V = ApplicationModel;

    open spec fn view(&self) -> ApplicationModel {
        ApplicationModel {
            id: self.id@,
            name: self.name@,
            command: self.command@,
            description: match self.description {
                Some(d) => Some(d@),
                None => None,
            },
            terminal: self.terminal,
        }
    }
}

impl ApplicationItem {
    /// A second item with the same value.
    pub fn duplicate(&self) -> (r: ApplicationItem)
        ensures
            r@ == self@,
    {
        ApplicationItem {
            id: self.id.clone(),
            name: self.name.clone(),
            command: self.command.clone(),
            description: match &self.description {
                Some(d) => Some(d.clone()),
                None => None,
            },
            terminal: self.terminal,
        }
    }
}

/// One entry of a view.
#[derive(Clone, Debug)]
pub enum ListItem {
    Application(ApplicationItem),
    Window(WindowInfo),
    Emoji(EmojiItem),
}

/// Whether `item` is the application with the value `app`.
pub open spec fn is_application(item: ListItem, app: ApplicationModel) -> bool {
    match item {
        ListItem::Application(a) => a@ == app,
        _ => false,
    }
}

/// Context for a single view in the navigation stack.
/// Each view has its own items, filter state, and selection.
#[derive(Clone)]
pub struct ViewContext {
    pub title: String,
    pub items: Vec<ListItem>,
    pub filtered_indices: Vec<usize>,
    pub query: String,
    pub selected_index: Option<usize>,
}

/// The positions `0, 1, .., n - 1`.
pub open spec fn all_indices(n: nat) -> Seq<usize> {
    Seq::new(n, |i: int| i as usize)
}

/// Whether a view over `n` items shows all of them, with an empty query and
/// the first item selected where there is one.
pub open spec fn is_unfiltered(v: ViewContext) -> bool {
    &&& v.filtered_indices@ == all_indices(v.items@.len())
    &&& v.query@ == Seq::<char>::empty()
    &&& v.selected_index == if v.items@.len() > 0 { Some(0usize) } else { None }
}

fn indices_up_to(n: usize) -> (r: Vec<usize>)
    ensures
        r@ == all_indices(n as nat),
{
    let mut r: Vec<usize> = Vec::new();
    let mut i: usize = 0;
    while i < n
        invariant
            i <= n,
            r@ == all_indices(i as nat),
        decreases n - i,
    {
        r.push(i);
        i += 1;
        proof {
            assert(r@ =~= all_indices(i as nat));
        }
    }
    r
}

impl ViewContext {
    /// Create a new view context with the given items.
    pub fn new(title: String, items: Vec<ListItem>) -> (r: ViewContext)
        ensures
            r.title == title,
            r.items == items,
            is_unfiltered(r),
    {
        let len = items.len();
        ViewContext {
            title,
            items,
            filtered_indices: indices_up_to(len),
            query: String::new(),
            selected_index: if len > 0 { Some(0) } else { None },
        }
    }

    /// Reset the view to its initial state.
    pub fn reset(&mut self)
        ensures
            final(self).title == old(self).title,
            final(self).items == old(self).items,
            is_unfiltered(*final(self)),
    {
        let len = self.items.len();
        self.filtered_indices = indices_up_to(len);
        self.query = String::new();
        self.selected_index = if len > 0 { Some(0) } else { None };
    }
}

/// Global application state for the launcher daemon. `S` is the handle of
/// the command server and `W` the handle of the launcher's window; the state
/// only keeps them.
pub struct AppState<S, W> {
    /// All loaded applications
    pub applications: Vec<ApplicationItem>,
    /// Navigation stack for submenu support
    pub view_stack: Vec<ViewContext>,
    /// IPC server handle for receiving commands
    pub ipc_server: Option<S>,
    /// Current window handle if visible
    pub window_handle: Option<W>,
    /// Whether the window is currently visible
    pub window_visible: bool,
}

impl<S, W> AppState<S, W> {
    /// Create new application state with loaded applications.
    pub fn new(applications: Vec<ApplicationItem>, ipc_server: Option<S>) -> (r: Self)
        ensures
            r.applications == applications,
            r.view_stack@.len() == 0,
            r.ipc_server == ipc_server,
            r.window_handle is None,
            !r.window_visible,
    {
        AppState {
            applications,
            view_stack: Vec::new(),
            ipc_server,
            window_handle: None,
            window_visible: false,
        }
    }

    /// Get the main view items (applications as ListItems).
    pub fn main_view_items(&self) -> (r: Vec<ListItem>)
        ensures
            r@.len() == self.applications@.len(),
            forall|i: int|
                0 <= i < r@.len() ==> is_application(#[trigger] r@[i], self.applications@[i]@),
    {
        let mut r: Vec<ListItem> = Vec::new();
        let mut i: usize = 0;
        while i < self.applications.len()
            invariant
                i <= self.applications.len(),
                r@.len() == i,
                forall|k: int|
                    0 <= k < i ==> is_application(#[trigger] r@[k], self.applications@[k]@),
            decreases self.applications.len() - i,
        {
            r.push(ListItem::Application(self.applications[i].duplicate()));
            i += 1;
        }
        r
    }

    /// Push a new view onto the navigation stack.
    pub fn push_view(&mut self, view: ViewContext)
        ensures
            final(self).view_stack@ == old(self).view_stack@.push(view),
            final(self).applications == old(self).applications,
            final(self).ipc_server == old(self).ipc_server,
            final(self).window_handle == old(self).window_handle,
            final(self).window_visible == old(self).window_visible,
    {
        self.view_stack.push(view);
    }

    /// Pop the top view from the navigation stack.
    pub fn pop_view(&mut self) -> (r: Option<ViewContext>)
        ensures
            old(self).view_stack@.len() == 0 ==> r is None && final(self).view_stack@ == old(
                self,
            ).view_stack@,
            old(self).view_stack@.len() > 0 ==> r == Some(old(self).view_stack@.last())
                && final(self).view_stack@ == old(self).view_stack@.drop_last(),
            final(self).applications == old(self).applications,
            final(self).ipc_server == old(self).ipc_server,
            final(self).window_handle == old(self).window_handle,
            final(self).window_visible == old(self).window_visible,
    {
        self.view_stack.pop()
    }

    /// Check if we're in a submenu (view stack is not empty).
    pub fn in_submenu(&self) -> (r: bool)
        ensures
            r == (self.view_stack@.len() > 0),
    {
        self.view_stack.len() > 0
    }

    /// Get the current view context (top of stack or None for main view).
    pub fn current_view(&self) -> (r: Option<&ViewContext>)
        ensures
            self.view_stack@.len() == 0 ==> r is None,
            self.view_stack@.len() > 0 ==> r is Some && *(r->0) == self.view_stack@.last(),
    {
        let n = self.view_stack.len();
        if n > 0 {
            Some(&self.view_stack[n - 1])
        } else {
            None
        }
    }

    /// Get mutable reference to current view context.
    pub fn current_view_mut(&mut self) -> (r: Option<&mut ViewContext>)
        ensures
            old(self).view_stack@.len() == 0 ==> r is None && final(self).view_stack@ == old(
                self,
            ).view_stack@,
            old(self).view_stack@.len() > 0 ==> r is Some && *(r->0) == old(
                self,
            ).view_stack@.last() && final(self).view_stack@ == old(self).view_stack@.update(
                old(self).view_stack@.len() - 1,
                *final(r->0),
            ),
            final(self).applications == old(self).applications,
            final(self).ipc_server == old(self).ipc_server,
            final(self).window_handle == old(self).window_handle,
            final(self).window_visible == old(self).window_visible,
    {
        let n = self.view_stack.len();
        if n > 0 {
            Some(&mut self.view_stack[n - 1])
        } else {
            None
        }
    }
}

/// Pushing a view and popping it again leaves the stack as it was and hands
/// the view back.
pub proof fn lemma_push_then_pop(stack: Seq<ViewContext>, view: ViewContext)
    ensures
        stack.push(view).last() == view,
        stack.push(view).drop_last() == stack,
{
    assert(stack.push(view).drop_last() =~= stack);
}

} // verus!
