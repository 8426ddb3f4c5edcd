use vstd::prelude::*;
use vstd::string::StringExecFns;

verus! {

/// The events that the user interface hands to the application.
#[derive(Clone, Debug, PartialEq, Eq)]
pub enum Message {
    Input1(String),
    Input2(String),
    Ignore,
    ToggleHide,
    SelectMacro(usize),
    RunMacro(Option<usize>),
}

/// What the application keeps between events, apart from the widgets.
#[derive(Debug, PartialEq, Eq)]
pub struct AppState {
    pub input_1: String,
    pub input_2: String,
    pub hidden: bool,
    pub macro_selected: Option<usize>,
    /// The names of the stored macros, for the selector.
    pub macros: Option<Vec<String>>,
}

impl AppState {
    /// The state at startup: empty inputs, the secret input hidden, the first
    /// macro selected, and the names of the collection read at startup.
    pub fn new(macros: Vec<String>) -> (r: AppState)
        ensures
            r.input_1@ == Seq::<char>::empty(),
            r.input_2@ == Seq::<char>::empty(),
            r.hidden,
            r.macro_selected == Some(0usize),
            r.macros == Some(macros),
    {
        AppState {
            input_1: String::new(),
            input_2: String::new(),
            hidden: true,
            macro_selected: Some(0),
            macros: Some(macros),
        }
    }

    /// Takes in one event. Returns the position of a macro to run, for
    /// `RunMacro(Some(i))` alone; every other event only changes the state.
    pub fn update(&mut self, message: Message) -> (run: Option<usize>)
        ensures
            message matches Message::RunMacro(i) ==> run == i,
            !(message is RunMacro) ==> run is None,
            final(self).macros == old(self).macros,
            final(self).input_1 == (match message {
                Message::Input1(v) => v,
                _ => old(self).input_1,
            }),
            final(self).input_2 == (match message {
                Message::Input2(v) => v,
                _ => old(self).input_2,
            }),
            final(self).hidden == (if message is ToggleHide {
                !old(self).hidden
            } else {
                old(self).hidden
            }),
            final(self).macro_selected == (match message {
                Message::SelectMacro(m) => Some(m),
                _ => old(self).macro_selected,
            }),
    {
        match message {
            Message::Input1(v) => {
                self.input_1 = v;
                None
            },
            Message::Input2(v) => {
                self.input_2 = v;
                None
            },
            Message::Ignore => None,
            Message::ToggleHide => {
                self.hidden = !self.hidden;
                None
            },
            Message::SelectMacro(m) => {
                self.macro_selected = Some(m);
                None
            },
            Message::RunMacro(selected) => selected,
        }
    }
}

/// The header title for the active page, or for no page.
pub fn header_title(page_title: Option<&str>) -> (r: String)
    ensures
        r@ == (match page_title {
            Some(t) => t@,
            None => "Unknown Page"@,
        }) + " \u{2014} Macros"@,
{
    let base = match page_title {
        Some(t) => t.to_owned(),
        None => "Unknown Page".to_owned(),
    };
    base.concat(" \u{2014} Macros")
}

} // verus!
