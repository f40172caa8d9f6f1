//! The rules of the main view of the user interface: its state, how it
//! reacts to its messages, and the texts it shows.

use vstd::prelude::*;
use vstd::string::*;
use crate::window::{mode_name, mode_text};

verus! {

/// The configuration as the user interface receives it.
#[derive(Clone, Debug, PartialEq)]
pub struct Config {
    pub version: String,
    pub colormode: String,
}

/// The arguments of the colour mode command.
#[derive(Clone, Copy, Debug, PartialEq, Eq, Structural)]
pub struct ThemeConfig {
    pub isdark: bool,
}

/// The arguments of the window effect command.
#[derive(Clone, Copy, Debug, PartialEq, Eq, Structural)]
pub struct WindoweffectConfig {
    pub ifclear: bool,
}

/// The arguments of the command that prints a line on the desktop side.
#[derive(Clone, Debug)]
pub struct PrintlnConfig {
    pub msg: String,
}

/// A call of a command of the desktop side.
#[derive(Clone, Debug)]
pub enum Invoke {
    Println(PrintlnConfig),
    ColormodeChange(ThemeConfig),
    WindoweffectChange(WindoweffectConfig),
    WindowMinimize,
    WindowClose,
}

/// A command call as values.
pub enum InvokeView {
    Println(Seq<char>),
    ColormodeChange(bool),
    WindoweffectChange(bool),
    WindowMinimize,
    WindowClose,
}

impl View for Invoke {
    type V = InvokeView;

    open spec fn view(&self) -> InvokeView {
        match self {
            Invoke::Println(p) => InvokeView::Println(p.msg@),
            Invoke::ColormodeChange(t) => InvokeView::ColormodeChange(t.isdark),
            Invoke::WindoweffectChange(w) => InvokeView::WindoweffectChange(w.ifclear),
            Invoke::WindowMinimize => InvokeView::WindowMinimize,
            Invoke::WindowClose => InvokeView::WindowClose,
        }
    }
}

/// The name of the command that a call invokes.
pub open spec fn command_name(i: InvokeView) -> Seq<char> {
    match i {
        InvokeView::Println(_) => "tauri_println"@,
        InvokeView::ColormodeChange(_) => "colormode_change"@,
        InvokeView::WindoweffectChange(_) => "windoweffect_change"@,
        InvokeView::WindowMinimize => "window_minimize"@,
        InvokeView::WindowClose => "window_close"@,
    }
}

impl Invoke {
    /// The name of the command that the call invokes.
    pub fn command(&self) -> (name: String)
        ensures
            name@ == command_name(self@),
    {
        match self {
            Invoke::Println(_) => String::from_str("tauri_println"),
            Invoke::ColormodeChange(_) => String::from_str("colormode_change"),
            Invoke::WindoweffectChange(_) => String::from_str("windoweffect_change"),
            Invoke::WindowMinimize => String::from_str("window_minimize"),
            Invoke::WindowClose => String::from_str("window_close"),
        }
    }
}

/// How a view reacts to a message: whether it is drawn again, the command
/// it calls, and the line it logs to the console.
#[derive(Debug)]
pub struct Reaction {
    pub rerender: bool,
    pub invoke: Option<Invoke>,
    pub log: Option<String>,
}

pub open spec fn opt_invoke_view(i: Option<Invoke>) -> Option<InvokeView> {
    match i {
        Some(i) => Some(i@),
        None => None,
    }
}

pub open spec fn opt_string_view(s: Option<String>) -> Option<Seq<char>> {
    match s {
        Some(s) => Some(s@),
        None => None,
    }
}

/// The state of the main view.
#[derive(Clone, Debug)]
pub struct AppUI {
    pub colormode: String,
    pub darkmode: bool,
    pub window_effect: String,
}

/// The main view's state as values.
pub struct AppUIView {
    pub colormode: Seq<char>,
    pub darkmode: bool,
    pub window_effect: Seq<char>,
}

impl View for AppUI {
    type V = AppUIView;

    open spec fn view(&self) -> AppUIView {
        AppUIView {
            colormode: self.colormode@,
            darkmode: self.darkmode,
            window_effect: self.window_effect@,
        }
    }
}

/// A message of the main view.
#[derive(Clone, Debug)]
pub enum Msg {
    /// The user asks to swap the window effect.
    WindoweffectChanged,
    /// The desktop side replied with the window's effect.
    WindoweffectChange(String),
    /// The user asks to swap the colour mode.
    ColormodeChanged,
    /// The system's colour mode became dark (true) or light.
    ColormodeChange(bool),
}

pub enum MsgView {
    WindoweffectChanged,
    WindoweffectChange(Seq<char>),
    ColormodeChanged,
    ColormodeChange(bool),
}

impl View for Msg {
    type V = MsgView;

    open spec fn view(&self) -> MsgView {
        match self {
            Msg::WindoweffectChanged => MsgView::WindoweffectChanged,
            Msg::WindoweffectChange(t) => MsgView::WindoweffectChange(t@),
            Msg::ColormodeChanged => MsgView::ColormodeChanged,
            Msg::ColormodeChange(b) => MsgView::ColormodeChange(*b),
        }
    }
}

/// Whether the colour mode follows the system.
pub open spec fn follows_system(colormode: Seq<char>) -> bool {
    colormode == "auto"@
}

/// The main view's state after a message.
pub open spec fn app_next(s: AppUIView, m: MsgView) -> AppUIView {
    match m {
        MsgView::ColormodeChanged => if follows_system(s.colormode) {
            AppUIView { darkmode: !s.darkmode, ..s }
        } else {
            s
        },
        MsgView::ColormodeChange(dark) => if follows_system(s.colormode) {
            AppUIView { darkmode: dark, ..s }
        } else {
            s
        },
        MsgView::WindoweffectChanged => s,
        MsgView::WindoweffectChange(t) => AppUIView { window_effect: t, ..s },
    }
}

/// Whether a message changes the colour mode.
pub open spec fn changes_mode(s: AppUIView, m: MsgView) -> bool {
    follows_system(s.colormode) && (m is ColormodeChanged || m is ColormodeChange)
}

/// The command that the main view calls on a message: the colour mode
/// command with the new mode, or the window effect command (whose reply
/// comes back as `WindoweffectChange`).
pub open spec fn app_invoke(s: AppUIView, m: MsgView) -> Option<InvokeView> {
    if changes_mode(s, m) {
        Some(InvokeView::ColormodeChange(app_next(s, m).darkmode))
    } else if m is WindoweffectChanged {
        Some(InvokeView::WindoweffectChange(false))
    } else {
        None
    }
}

/// The console line that the main view logs on a message.
pub open spec fn app_log(s: AppUIView, m: MsgView) -> Option<Seq<char>> {
    if changes_mode(s, m) {
        Some("[INFO] Colormode changed to "@ + mode_name(app_next(s, m).darkmode))
    } else {
        None
    }
}

/// The line printed on the desktop side when the view learns the system's
/// colour mode.
pub open spec fn mode_line(prefix: Seq<char>, dark: bool) -> Seq<char> {
    prefix + mode_name(dark)
}

fn println_line(prefix: &str, dark: bool) -> (p: PrintlnConfig)
    ensures
        p.msg@ == mode_line(prefix@, dark),
{
    let mut msg = String::from_str(prefix);
    let mode = mode_text(dark);
    msg.append(mode.as_str());
    PrintlnConfig { msg }
}

/// What the view does when the system's colour mode changes to `status`:
/// it prints a line on the desktop side and sends itself
/// `ColormodeChange(status)`.
pub fn dark_mode_changed(status: bool) -> (r: (Invoke, Msg))
    ensures
        r.0@ == InvokeView::Println(mode_line("[INFO] event match status: "@, status)),
        r.1@ == MsgView::ColormodeChange(status),
{
    (Invoke::Println(println_line("[INFO] event match status: ", status)), Msg::ColormodeChange(status))
}

impl AppUI {
    /// The main view at its creation, given whether the system is dark: it
    /// follows the system's colour mode and shows Mica; it prints the mode
    /// on the desktop side.
    pub fn create(darkmode: bool) -> (r: (AppUI, Invoke))
        ensures
            r.0@.colormode == "auto"@,
            r.0@.darkmode == darkmode,
            r.0@.window_effect == "Mica"@,
            r.1@ == InvokeView::Println(mode_line("[INFO] Get dark mode: "@, darkmode)),
    {
        let ui = AppUI {
            colormode: String::from_str("auto"),
            darkmode,
            window_effect: String::from_str("Mica"),
        };
        (ui, Invoke::Println(println_line("[INFO] Get dark mode: ", darkmode)))
    }

    /// The reaction to a message; the view is always drawn again.
    pub fn update(&mut self, msg: Msg) -> (r: Reaction)
        ensures
            final(self)@ == app_next(old(self)@, msg@),
            r.rerender,
            opt_invoke_view(r.invoke) == app_invoke(old(self)@, msg@),
            opt_string_view(r.log) == app_log(old(self)@, msg@),
            msg matches Msg::ColormodeChange(d) ==> (old(self).colormode@ == "auto"@
                ==> final(self).darkmode == d
                && r.invoke == (Some(Invoke::ColormodeChange(ThemeConfig { isdark: d })))),
            msg is ColormodeChanged && old(self).colormode@ == "auto"@ ==> final(self).darkmode
                == !old(self).darkmode && r.invoke == (Some(
                Invoke::ColormodeChange(ThemeConfig { isdark: !old(self).darkmode }),
            )),
            (msg is ColormodeChanged || msg is ColormodeChange) && old(self).colormode@ != "auto"@
                ==> final(self)@ == old(self)@ && r.invoke is None && r.log is None,
            msg is WindoweffectChanged ==> final(self)@ == old(self)@ && r.invoke == (Some(
                Invoke::WindoweffectChange(WindoweffectConfig { ifclear: false }),
            )),
            msg matches Msg::WindoweffectChange(t) ==> final(self).window_effect == t
                && final(self).darkmode == old(self).darkmode
                && final(self).colormode == old(self).colormode && r.invoke is None,
    {
        let auto = self.colormode == String::from_str("auto");
        match msg {
            Msg::ColormodeChanged => {
                if auto {
                    self.darkmode = !self.darkmode;
                    self.mode_changed()
                } else {
                    Reaction { rerender: true, invoke: None, log: None }
                }
            },
            Msg::ColormodeChange(isdark) => {
                if auto {
                    self.darkmode = isdark;
                    self.mode_changed()
                } else {
                    Reaction { rerender: true, invoke: None, log: None }
                }
            },
            Msg::WindoweffectChanged => Reaction {
                rerender: true,
                invoke: Some(Invoke::WindoweffectChange(WindoweffectConfig { ifclear: false })),
                log: None,
            },
            Msg::WindoweffectChange(target) => {
                self.window_effect = target;
                Reaction { rerender: true, invoke: None, log: None }
            },
        }
    }

    fn mode_changed(&self) -> (r: Reaction)
        ensures
            r.rerender,
            r.invoke == (Some(Invoke::ColormodeChange(ThemeConfig { isdark: self.darkmode }))),
            opt_string_view(r.log) == Some("[INFO] Colormode changed to "@ + mode_name(self.darkmode)),
    {
        let mut log = String::from_str("[INFO] Colormode changed to ");
        let mode = mode_text(self.darkmode);
        log.append(mode.as_str());
        Reaction {
            rerender: true,
            invoke: Some(Invoke::ColormodeChange(ThemeConfig { isdark: self.darkmode })),
            log: Some(log),
        }
    }

    /// The colour class of the view: "dark" or "light".
    pub fn colormode_class(&self) -> (c: String)
        ensures
            c@ == (if self.darkmode {
                "dark"@
            } else {
                "light"@
            }),
    {
        if self.darkmode {
            String::from_str("dark")
        } else {
            String::from_str("light")
        }
    }

    /// The class of the main element: "container " and the colour class.
    pub fn main_class(&self) -> (c: String)
        ensures
            c@ == "container "@ + (if self.darkmode {
                "dark"@
            } else {
                "light"@
            }),
    {
        let mut c = String::from_str("container ");
        let mode = self.colormode_class();
        c.append(mode.as_str());
        c
    }

    /// The label of the effect button: it offers Acrylic while the effect is
    /// Mica, and Mica otherwise.
    pub fn effect_button_label(&self) -> (label: String)
        ensures
            label@ == "切换到 "@ + (if self.window_effect@ == "Mica"@ {
                "亚克力"@
            } else {
                "云母"@
            }) + "效果"@,
    {
        let mut label = String::from_str("切换到 ");
        if self.window_effect == String::from_str("Mica") {
            label.append("亚克力");
        } else {
            label.append("云母");
        }
        label.append("效果");
        label
    }
}

// ---------------------------------------------------------------------------
// Laws of the main view.

/// Asking twice to swap the colour mode gives back the mode, when the
/// view follows the system.
pub proof fn law_colormode_swap_twice_restores(s: AppUIView)
    requires
        follows_system(s.colormode),
    ensures
        app_next(app_next(s, MsgView::ColormodeChanged), MsgView::ColormodeChanged) == s,
{
}

/// A view that does not follow the system ignores the colour mode
/// messages: its state stays, and it calls and logs nothing.
pub proof fn law_fixed_mode_ignores_mode_messages(s: AppUIView, dark: bool)
    requires
        !follows_system(s.colormode),
    ensures
        app_next(s, MsgView::ColormodeChanged) == s,
        app_next(s, MsgView::ColormodeChange(dark)) == s,
        app_invoke(s, MsgView::ColormodeChanged) is None,
        app_invoke(s, MsgView::ColormodeChange(dark)) is None,
        app_log(s, MsgView::ColormodeChanged) is None,
        app_log(s, MsgView::ColormodeChange(dark)) is None,
{
}

/// Every colour mode change that the view makes is sent to the desktop
/// side with the mode the view now has.
pub proof fn law_mode_change_is_sent(s: AppUIView, m: MsgView)
    requires
        app_next(s, m).darkmode != s.darkmode,
    ensures
        app_invoke(s, m) == Some(InvokeView::ColormodeChange(app_next(s, m).darkmode)),
{
}

/// The desktop side's reply to the window effect command becomes the
/// view's effect, and nothing else changes.
pub proof fn law_effect_reply_is_shown(s: AppUIView, t: Seq<char>)
    ensures
        app_next(s, MsgView::WindoweffectChange(t)) == (AppUIView { window_effect: t, ..s }),
{
}


/// The colour mode messages, for a view that follows the system: the
/// system's mode `d` becomes the view's mode, whatever it was, and a swap
/// turns the mode over; either way the new mode is sent to the desktop side
/// and logged by name. The effect swap request leaves the view and calls
/// the window effect command without clearing.
pub proof fn law_mode_messages(s: AppUIView, d: bool)
    ensures
        follows_system(s.colormode) ==> app_next(s, MsgView::ColormodeChange(d)).darkmode == d
            && app_invoke(s, MsgView::ColormodeChange(d)) == Some(InvokeView::ColormodeChange(d))
            && app_log(s, MsgView::ColormodeChange(d)) == Some(
            "[INFO] Colormode changed to "@ + mode_name(d),
        ),
        follows_system(s.colormode) ==> app_next(s, MsgView::ColormodeChanged).darkmode
            == !s.darkmode && app_invoke(s, MsgView::ColormodeChanged) == Some(
            InvokeView::ColormodeChange(!s.darkmode),
        ),
        app_next(s, MsgView::ColormodeChange(d)).colormode == s.colormode,
        app_next(s, MsgView::ColormodeChange(d)).window_effect == s.window_effect,
        app_next(s, MsgView::WindoweffectChanged) == s,
        app_invoke(s, MsgView::WindoweffectChanged) == Some(InvokeView::WindoweffectChange(false)),
{
}

} // verus!
