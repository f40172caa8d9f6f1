//! The rules of the smaller views of the user interface: the title bar, the
//! task items, the task list and the tab bar.

use vstd::prelude::*;
use vstd::string::*;
use crate::frontend::{Invoke, InvokeView};
use crate::localdata::{StaskStatus, status_text};

verus! {

/// The title bar of the window.
#[derive(Clone, Debug)]
pub struct TitleBar {
    pub title: String,
}

/// A message of the title bar.
#[derive(Clone, Copy, Debug, PartialEq, Eq, Structural)]
pub enum TitlebarMsg {
    Minimize,
    Close,
}

impl TitleBar {
    /// The title bar, titled "TimeUp".
    pub fn create() -> (t: TitleBar)
        ensures
            t.title@ == "TimeUp"@,
    {
        TitleBar { title: String::from_str("TimeUp") }
    }

    /// The reaction to a button of the title bar: the command that minimizes
    /// or closes the window; the bar is drawn again.
    pub fn update(&mut self, msg: TitlebarMsg) -> (r: (bool, Invoke))
        ensures
            *final(self) == *old(self),
            r.0,
            r.1@ == (match msg {
                TitlebarMsg::Minimize => InvokeView::WindowMinimize,
                TitlebarMsg::Close => InvokeView::WindowClose,
            }),
    {
        match msg {
            TitlebarMsg::Minimize => (true, Invoke::WindowMinimize),
            TitlebarMsg::Close => (true, Invoke::WindowClose),
        }
    }
}

/// A task item of the task list view.
#[derive(Clone, Debug)]
pub struct TaskItem {
    pub completed: Option<StaskStatus>,
    pub description: String,
    pub outdate: Option<bool>,
    pub show_menu: bool,
}

/// A message of a task item.
#[derive(Clone, Copy, Debug, PartialEq, Eq, Structural)]
pub enum ItemMsg {
    /// The item was clicked.
    Finish,
}

/// The state of a task item after a click: a completed task waits again,
/// any other becomes completed.
pub open spec fn finished(s: Option<StaskStatus>) -> Option<StaskStatus> {
    if s == Some(StaskStatus::Completed) {
        Some(StaskStatus::Wait)
    } else {
        Some(StaskStatus::Completed)
    }
}

impl TaskItem {
    /// A new, empty task item, waiting, with its menu hidden.
    pub fn create() -> (t: TaskItem)
        ensures
            t.completed == Some(StaskStatus::Wait),
            t.description@ == Seq::<char>::empty(),
            t.outdate is None,
            !t.show_menu,
    {
        TaskItem {
            completed: Some(StaskStatus::Wait),
            description: String::new(),
            outdate: None,
            show_menu: false,
        }
    }

    /// The reaction to a click: the state changes as `finished` says; the
    /// item is drawn again.
    pub fn update(&mut self, msg: ItemMsg) -> (rerender: bool)
        ensures
            rerender,
            final(self).completed == finished(old(self).completed),
            final(self).description == old(self).description,
            final(self).outdate == old(self).outdate,
            final(self).show_menu == old(self).show_menu,
    {
        match msg {
            ItemMsg::Finish => {
                if self.completed == Some(StaskStatus::Completed) {
                    self.completed = Some(StaskStatus::Wait);
                } else {
                    self.completed = Some(StaskStatus::Completed);
                }
            },
        }
        true
    }

    /// The class of the item's element: "taskitem " and its state's name.
    pub fn item_class(&self) -> (c: String)
        requires
            self.completed is Some,
        ensures
            c@ == "taskitem "@ + status_text(self.completed->0),
    {
        let mut c = String::from_str("taskitem ");
        let status = match self.completed {
            Some(s) => s,
            None => StaskStatus::Wait,
        };
        let name = status.to_string();
        c.append(name.as_str());
        c
    }
}

/// The task list view.
#[derive(Clone, Debug)]
pub struct TaskList {
    pub tasks: Vec<TaskItem>,
}

impl TaskList {
    /// An empty task list.
    pub fn create() -> (t: TaskList)
        ensures
            t.tasks@.len() == 0,
    {
        TaskList { tasks: Vec::new() }
    }
}

/// The tab bar, with the number of the page shown (0 for none).
#[derive(Clone, Copy, Debug, PartialEq, Eq, Structural)]
pub struct TabBar {
    pub page_number: i8,
}

/// A message of the tab bar: a tab was clicked.
#[derive(Clone, Copy, Debug, PartialEq, Eq, Structural)]
pub enum TabBarMsg {
    SwitchPage(i8),
}

/// The page shown after clicking the tab of `page`: clicking the tab of the
/// page shown closes it.
pub open spec fn switched(current: i8, page: i8) -> i8 {
    if current == page {
        0
    } else {
        page
    }
}

/// The colour of a tab's label.
pub open spec fn tab_style_text(active: bool) -> Seq<char> {
    if active {
        "color: #396cd8"@
    } else {
        "color: unset"@
    }
}

impl TabBar {
    /// The tab bar with no page shown.
    pub fn create() -> (t: TabBar)
        ensures
            t.page_number == 0,
    {
        TabBar { page_number: 0 }
    }

    /// The reaction to a click on a tab; the bar is drawn again.
    pub fn update(&mut self, msg: TabBarMsg) -> (rerender: bool)
        ensures
            rerender,
            final(self).page_number == (match msg {
                TabBarMsg::SwitchPage(p) => switched(old(self).page_number, p),
            }),
    {
        match msg {
            TabBarMsg::SwitchPage(page) => {
                if self.page_number == page {
                    self.page_number = 0;
                } else {
                    self.page_number = page;
                }
            },
        }
        true
    }

    /// The style of the tab of `page`: highlighted when it is shown.
    pub fn tab_style(&self, page: i8) -> (s: String)
        ensures
            s@ == tab_style_text(self.page_number == page),
    {
        if self.page_number == page {
            String::from_str("color: #396cd8")
        } else {
            String::from_str("color: unset")
        }
    }

    /// The label of the tab of `page` (1: tasks, 2: settings): a capital
    /// letter when the page is shown.
    pub fn tab_label(&self, page: i8) -> (c: char)
        requires
            page == 1 || page == 2,
        ensures
            c == (if page == 1 {
                if self.page_number == 1 {
                    'T'
                } else {
                    't'
                }
            } else {
                if self.page_number == 2 {
                    'S'
                } else {
                    's'
                }
            }),
    {
        if page == 1 {
            if self.page_number == 1 {
                'T'
            } else {
                't'
            }
        } else {
            if self.page_number == 2 {
                'S'
            } else {
                's'
            }
        }
    }
}

// ---------------------------------------------------------------------------
// Laws of the smaller views.

/// A task item always has a state: a click gives one whatever the item
/// had, so its class can always be drawn.
pub proof fn law_task_item_keeps_a_state(s: Option<StaskStatus>)
    ensures
        finished(s) is Some,
{
}

/// Two clicks on a waiting or completed task item give back its state.
pub proof fn law_task_item_click_twice_restores(s: StaskStatus)
    requires
        s == StaskStatus::Wait || s == StaskStatus::Completed,
    ensures
        finished(finished(Some(s))) == Some(s),
{
}

/// Clicking a tab shows its page unless it was shown, and then no page is
/// shown; clicking it twice from no page gives no page again.
pub proof fn law_tab_click(current: i8, page: i8)
    requires
        page != 0,
    ensures
        current != page ==> switched(current, page) == page,
        current == page ==> switched(current, page) == 0,
        switched(switched(0, page), page) == 0,
{
}


/// A click completes a task that is waiting, not needed or without a
/// state, and sets a completed task waiting again.
pub proof fn law_task_item_click(s: Option<StaskStatus>)
    ensures
        s == Some(StaskStatus::Completed) ==> finished(s) == Some(StaskStatus::Wait),
        s != Some(StaskStatus::Completed) ==> finished(s) == Some(StaskStatus::Completed),
{
}

} // verus!
