use timeup::frontend::{dark_mode_changed, AppUI, Invoke, Msg};

fn fixed_ui(dark: bool) -> AppUI {
    AppUI { colormode: "dark".to_string(), darkmode: dark, window_effect: "Mica".to_string() }
}

#[test]
fn create_follows_system() {
    let (ui, print) = AppUI::create(true);
    assert_eq!(ui.colormode, "auto");
    assert!(ui.darkmode);
    assert_eq!(ui.window_effect, "Mica");
    assert!(matches!(print, Invoke::Println(ref p) if p.msg == "[INFO] Get dark mode: Dark"));
    assert_eq!(print.command(), "tauri_println");
}

#[test]
fn command_names() {
    assert_eq!(Invoke::WindowMinimize.command(), "window_minimize");
    assert_eq!(Invoke::WindowClose.command(), "window_close");
}

#[test]
fn colormode_changed_toggles_and_sends() {
    let (mut ui, _) = AppUI::create(false);
    let r = ui.update(Msg::ColormodeChanged);
    assert!(r.rerender);
    assert!(ui.darkmode);
    assert!(matches!(r.invoke, Some(Invoke::ColormodeChange(t)) if t.isdark));
    assert_eq!(r.invoke.as_ref().unwrap().command(), "colormode_change");
    assert_eq!(r.log.as_deref(), Some("[INFO] Colormode changed to Dark"));
}

#[test]
fn law_colormode_swap_twice_restores_concrete() {
    let (mut ui, _) = AppUI::create(true);
    ui.update(Msg::ColormodeChanged);
    let r = ui.update(Msg::ColormodeChanged);
    assert!(ui.darkmode);
    assert_eq!(r.log.as_deref(), Some("[INFO] Colormode changed to Dark"));
}

#[test]
fn colormode_change_sets_mode() {
    let (mut ui, _) = AppUI::create(true);
    let r = ui.update(Msg::ColormodeChange(false));
    assert!(!ui.darkmode);
    assert!(matches!(r.invoke, Some(Invoke::ColormodeChange(t)) if !t.isdark));
    assert_eq!(r.log.as_deref(), Some("[INFO] Colormode changed to Light"));
}

#[test]
fn law_fixed_mode_ignores_messages_concrete() {
    let mut ui = fixed_ui(true);
    let r = ui.update(Msg::ColormodeChanged);
    assert!(r.rerender);
    assert!(ui.darkmode);
    assert!(r.invoke.is_none());
    assert!(r.log.is_none());
    let r = ui.update(Msg::ColormodeChange(false));
    assert!(ui.darkmode);
    assert!(r.invoke.is_none());
}

#[test]
fn effect_messages() {
    let (mut ui, _) = AppUI::create(false);
    let r = ui.update(Msg::WindoweffectChanged);
    assert!(matches!(r.invoke, Some(Invoke::WindoweffectChange(w)) if !w.ifclear));
    assert_eq!(r.invoke.as_ref().unwrap().command(), "windoweffect_change");
    assert_eq!(ui.window_effect, "Mica");
    let r = ui.update(Msg::WindoweffectChange("Acrylic".to_string()));
    assert!(r.rerender);
    assert!(r.invoke.is_none());
    assert_eq!(ui.window_effect, "Acrylic");
    assert!(!ui.darkmode);
}

#[test]
fn view_texts() {
    let (mut ui, _) = AppUI::create(true);
    assert_eq!(ui.colormode_class(), "dark");
    assert_eq!(ui.main_class(), "container dark");
    assert_eq!(ui.effect_button_label(), "切换到 亚克力效果");
    ui.update(Msg::WindoweffectChange("Acrylic".to_string()));
    ui.update(Msg::ColormodeChanged);
    assert_eq!(ui.main_class(), "container light");
    assert_eq!(ui.effect_button_label(), "切换到 云母效果");
}

#[test]
fn system_mode_event() {
    let (print, msg) = dark_mode_changed(false);
    assert!(matches!(print, Invoke::Println(ref p) if p.msg == "[INFO] event match status: Light"));
    assert!(matches!(msg, Msg::ColormodeChange(false)));
}
