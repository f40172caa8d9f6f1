use timeup::components::{ItemMsg, TabBar, TabBarMsg, TaskItem, TaskList, TitleBar, TitlebarMsg};
use timeup::frontend::Invoke;
use timeup::localdata::StaskStatus;

#[test]
fn title_bar() {
    let mut bar = TitleBar::create();
    assert_eq!(bar.title, "TimeUp");
    let (rerender, call) = bar.update(TitlebarMsg::Minimize);
    assert!(rerender);
    assert!(matches!(call, Invoke::WindowMinimize));
    let (_, call) = bar.update(TitlebarMsg::Close);
    assert!(matches!(call, Invoke::WindowClose));
    assert_eq!(bar.title, "TimeUp");
}

#[test]
fn task_item_create() {
    let item = TaskItem::create();
    assert_eq!(item.completed, Some(StaskStatus::Wait));
    assert_eq!(item.description, "");
    assert_eq!(item.outdate, None);
    assert!(!item.show_menu);
    assert_eq!(item.item_class(), "taskitem Wait");
}

#[test]
fn law_task_item_click_twice_restores_concrete() {
    let mut item = TaskItem::create();
    assert!(item.update(ItemMsg::Finish));
    assert_eq!(item.completed, Some(StaskStatus::Completed));
    assert_eq!(item.item_class(), "taskitem Completed");
    item.update(ItemMsg::Finish);
    assert_eq!(item.completed, Some(StaskStatus::Wait));
}

#[test]
fn task_item_from_no_need_or_none() {
    let mut item = TaskItem::create();
    item.completed = Some(StaskStatus::NoNeed);
    assert_eq!(item.item_class(), "taskitem NoNeed");
    item.update(ItemMsg::Finish);
    assert_eq!(item.completed, Some(StaskStatus::Completed));
    item.completed = None;
    item.update(ItemMsg::Finish);
    assert_eq!(item.completed, Some(StaskStatus::Completed));
}

#[test]
fn task_list_create() {
    assert!(TaskList::create().tasks.is_empty());
}

#[test]
fn law_tab_click_concrete() {
    let mut bar = TabBar::create();
    assert_eq!(bar.page_number, 0);
    assert!(bar.update(TabBarMsg::SwitchPage(1)));
    assert_eq!(bar.page_number, 1);
    bar.update(TabBarMsg::SwitchPage(2));
    assert_eq!(bar.page_number, 2);
    bar.update(TabBarMsg::SwitchPage(2));
    assert_eq!(bar.page_number, 0);
}

#[test]
fn tab_texts() {
    let mut bar = TabBar::create();
    bar.update(TabBarMsg::SwitchPage(1));
    assert_eq!(bar.tab_style(1), "color: #396cd8");
    assert_eq!(bar.tab_style(2), "color: unset");
    assert_eq!(bar.tab_label(1), 'T');
    assert_eq!(bar.tab_label(2), 's');
    bar.update(TabBarMsg::SwitchPage(2));
    assert_eq!(bar.tab_label(1), 't');
    assert_eq!(bar.tab_label(2), 'S');
}
