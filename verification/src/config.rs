//! The settings of the client: where the service is, and who logs in.

use crate::text::{
    all_digits, decimal, is_ascii_digit, is_digit, only_digits, parse_number, parsed_number,
    push_decimal,
    push_repeat, repeat, trim_end, trimmed_end,
};
use vstd::prelude::*;
use vstd::utf8::encode_utf8;

verus! {

/// The settings of the client.
#[derive(Debug, Clone, PartialEq, Eq)]
pub struct AppConfig {
    pub server_url: String,
    pub port: u16,
    pub username: String,
    pub password: String,
    pub refresh_interval: u64,
}

/// What an `AppConfig` holds, with texts as plain characters.
pub struct AppConfigModel {
    pub server_url: Seq<char>,
    pub port: u16,
    pub username: Seq<char>,
    pub password: Seq<char>,
    pub refresh_interval: u64,
}

impl View for AppConfig {
    type V = AppConfigModel;

    open spec fn view(&self) -> AppConfigModel {
        AppConfigModel {
            server_url: self.server_url@,
            port: self.port,
            username: self.username@,
            password: self.password@,
            refresh_interval: self.refresh_interval,
        }
    }
}

impl AppConfigModel {
    /// The address that requests go to: the server's address, a colon, the port.
    pub open spec fn endpoint(self) -> Seq<char> {
        self.server_url + ":"@ + decimal(self.port as nat)
    }
}

impl AppConfig {
    /// The address that requests go to: the server's address, a colon, the port.
    pub fn endpoint(&self) -> (address: String)
        ensures
            address@ == self@.endpoint(),
    {
        let mut address = self.server_url.clone();
        address.append(":");
        push_decimal(&mut address, self.port as u64);
        address
    }
}

/// The number of fields of the setup form.
pub const FIELD_COUNT: usize = 5;

/// A key press, as far as the setup form tells keys apart.
#[derive(Debug, Clone, Copy, PartialEq, Eq, Structural)]
pub enum WizardKey {
    Char(char),
    Backspace,
    Up,
    Down,
    Enter,
    Esc,
    Other,
}

/// What the setup form has come to after a key.
#[derive(Debug, Clone, PartialEq, Eq)]
pub enum WizardStep {
    /// The form goes on.
    Continue,
    /// The form is filled in: these are the settings.
    Finished(AppConfig),
    /// The user gave up.
    Aborted,
}

/// The state of the setup form, with texts as plain characters.
pub struct WizardModel {
    pub inputs: Seq<Seq<char>>,
    pub active: usize,
    pub error_msg: Option<Seq<char>>,
}

/// Whether a field takes digits only: the port and the refresh interval.
pub open spec fn is_number_field(field: int) -> bool {
    field == 1 || field == 4
}

impl WizardModel {
    /// What holds of every state of the form: it has its five fields, one
    /// of them is active, and the two number fields hold digits only.
    pub open spec fn well_formed(self) -> bool {
        &&& self.inputs.len() == FIELD_COUNT
        &&& self.active < FIELD_COUNT
        &&& all_digits(self.inputs[1])
        &&& all_digits(self.inputs[4])
    }

    /// The empty form, with its first field active.
    pub open spec fn initial() -> WizardModel {
        WizardModel {
            inputs: seq![
                Seq::<char>::empty(),
                Seq::<char>::empty(),
                Seq::<char>::empty(),
                Seq::<char>::empty(),
                Seq::<char>::empty(),
            ],
            active: 0,
            error_msg: None,
        }
    }

    /// The form with the text of its active field replaced, and no error shown.
    pub open spec fn edited(self, text: Seq<char>) -> WizardModel {
        WizardModel {
            inputs: self.inputs.update(self.active as int, text),
            error_msg: None,
            ..self
        }
    }

    /// The form with another field active, and no error shown.
    pub open spec fn moved(self, active: usize) -> WizardModel {
        WizardModel { active, error_msg: None, ..self }
    }

    /// The form showing an error.
    pub open spec fn complaining(self, message: Seq<char>) -> WizardModel {
        WizardModel { error_msg: Some(message), ..self }
    }

    /// The port that the form holds, if it holds one.
    pub open spec fn port(self) -> Option<nat> {
        parsed_number(self.inputs[1], u16::MAX as nat)
    }

    /// The refresh interval that the form holds, if it holds one.
    pub open spec fn refresh_interval(self) -> Option<nat> {
        parsed_number(self.inputs[4], u64::MAX as nat)
    }

    /// The settings that the form holds: the address without slashes at its end.
    pub open spec fn config(self) -> AppConfigModel {
        AppConfigModel {
            server_url: trimmed_end(self.inputs[0], '/'),
            port: match self.port() {
                Some(port) => port as u16,
                None => 0,
            },
            username: self.inputs[2],
            password: self.inputs[3],
            refresh_interval: match self.refresh_interval() {
                Some(secs) => secs as u64,
                None => 60,
            },
        }
    }

    /// The form after a key. A character goes to the end of the active
    /// field, but only a digit into a number field; backspace takes the last
    /// character away; up and down move between the fields and stop at the
    /// first and the last; enter moves on, and on the last field checks the
    /// two numbers. Every key but enter on the last field clears the error.
    pub open spec fn after_key(self, key: WizardKey) -> WizardModel {
        let field = self.inputs[self.active as int];
        match key {
            WizardKey::Char(c) => if !is_number_field(self.active as int) || is_digit(c) {
                self.edited(field.push(c))
            } else {
                self.edited(field)
            },
            WizardKey::Backspace => if field.len() > 0 {
                self.edited(field.drop_last())
            } else {
                self.edited(field)
            },
            WizardKey::Up => if self.active > 0 {
                self.moved((self.active - 1) as usize)
            } else {
                self.moved(0)
            },
            WizardKey::Down => if self.active < FIELD_COUNT - 1 {
                self.moved((self.active + 1) as usize)
            } else {
                self.moved(self.active)
            },
            WizardKey::Enter => if self.active < FIELD_COUNT - 1 {
                self.moved((self.active + 1) as usize)
            } else if self.port() is None {
                self.complaining("Port must be a number 0–65535"@)
            } else if self.refresh_interval() is None {
                self.complaining("Refresh interval must be a number"@)
            } else {
                self
            },
            WizardKey::Esc => self,
            WizardKey::Other => self,
        }
    }

    /// Whether a key completes the form: enter on the last field, with a
    /// port and a refresh interval that are numbers in range.
    pub open spec fn completes(self, key: WizardKey) -> bool {
        key == WizardKey::Enter && self.active == FIELD_COUNT - 1 && self.port() is Some
            && self.refresh_interval() is Some
    }
}

/// The setup form that collects the settings on the first run.
pub struct Wizard {
    inputs: Vec<String>,
    active: usize,
    error_msg: Option<String>,
}

impl View for Wizard {
    type V = WizardModel;

    closed spec fn view(&self) -> WizardModel {
        WizardModel {
            inputs: self.inputs.deep_view(),
            active: self.active,
            error_msg: self.error_msg.deep_view(),
        }
    }
}

impl Wizard {
    /// The empty form, with its first field active.
    pub fn new() -> (wizard: Self)
        ensures
            wizard@ == WizardModel::initial(),
            wizard@.well_formed(),
    {
        let mut inputs: Vec<String> = Vec::new();
        inputs.push(String::new());
        inputs.push(String::new());
        inputs.push(String::new());
        inputs.push(String::new());
        inputs.push(String::new());
        let wizard = Wizard { inputs, active: 0, error_msg: None };
        assert(wizard@.inputs =~= WizardModel::initial().inputs);
        wizard
    }

    /// Whether the form is in a state that it can come to by itself: it has
    /// its five fields, one of them is active, and the two number fields
    /// hold digits only.
    pub fn is_well_formed(&self) -> (ok: bool)
        ensures
            ok == self@.well_formed(),
    {
        if self.inputs.len() != FIELD_COUNT || self.active >= FIELD_COUNT {
            return false;
        }
        only_digits(self.inputs[1].as_str()) && only_digits(self.inputs[4].as_str())
    }

    /// The titles of the fields.
    pub fn labels() -> (labels: Vec<&'static str>)
        ensures
            labels@.len() == FIELD_COUNT,
            labels@.map_values(|label: &'static str| label@) == seq![
                " Server URL "@,
                " Port "@,
                " Username "@,
                " Password "@,
                " Refresh Interval (in seconds)"@,
            ],
    {
        let labels = vec![
            " Server URL ",
            " Port ",
            " Username ",
            " Password ",
            " Refresh Interval (in seconds)",
        ];
        assert(labels@.map_values(|label: &'static str| label@) =~= seq![
            " Server URL "@,
            " Port "@,
            " Username "@,
            " Password "@,
            " Refresh Interval (in seconds)"@,
        ]);
        labels
    }

    /// The index of the active field.
    pub fn active(&self) -> (active: usize)
        ensures
            active == self@.active,
    {
        self.active
    }

    /// The error that is shown, if one is.
    pub fn error_msg(&self) -> (message: &Option<String>)
        ensures
            message.deep_view() == self@.error_msg,
    {
        &self.error_msg
    }

    /// The text of a field.
    pub fn input(&self, field: usize) -> (text: &str)
        requires
            self@.well_formed(),
            field < FIELD_COUNT,
        ensures
            text@ == self@.inputs[field as int],
    {
        self.inputs[field].as_str()
    }

    /// The text that a field shows: its own, but the password as one star
    /// for each byte of it.
    pub fn display_value(&self, field: usize) -> (text: String)
        requires
            self@.well_formed(),
            field < FIELD_COUNT,
        ensures
            text@ == if field == 3 {
                repeat('*', (encode_utf8(self@.inputs[field as int]).len() as usize) as nat)
            } else {
                self@.inputs[field as int]
            },
    {
        if field == 3 {
            let mut stars = String::new();
            push_repeat(&mut stars, '*', self.inputs[field].as_str().len());
            assert(stars@ =~= repeat(
                '*',
                (encode_utf8(self@.inputs[field as int]).len() as usize) as nat,
            ));
            stars
        } else {
            self.inputs[field].clone()
        }
    }

    /// Sets the text of the active field and clears the error.
    fn edit(&mut self, text: String)
        requires
            old(self)@.well_formed(),
        ensures
            final(self)@ == old(self)@.edited(text@),
    {
        let active = self.active;
        self.inputs[active] = text;
        self.error_msg = None;
        assert(self@.inputs =~= old(self)@.inputs.update(active as int, text@));
    }

    /// The settings that the form holds.
    fn build(&self, port: u16, refresh_interval: u64) -> (config: AppConfig)
        requires
            self@.well_formed(),
            self@.port() == Some(port as nat),
            self@.refresh_interval() == Some(refresh_interval as nat),
        ensures
            config@ == self@.config(),
    {
        AppConfig {
            server_url: trim_end(self.inputs[0].as_str(), '/'),
            port,
            username: self.inputs[2].clone(),
            password: self.inputs[3].clone(),
            refresh_interval,
        }
    }

    /// Takes a key in. The form changes as `after_key` says; it is finished
    /// exactly where the key completes it, and then hands out the settings
    /// it holds; it is given up exactly on escape.
    pub fn handle_key(&mut self, key: WizardKey) -> (step: WizardStep)
        requires
            old(self)@.well_formed(),
        ensures
            final(self)@ == old(self)@.after_key(key),
            final(self)@.well_formed(),
            match step {
                WizardStep::Finished(config) => old(self)@.completes(key) && config@ == old(
                    self,
                )@.config(),
                WizardStep::Aborted => key == WizardKey::Esc,
                WizardStep::Continue => !old(self)@.completes(key) && key != WizardKey::Esc,
            },
    {
        let active = self.active;
        match key {
            WizardKey::Char(c) => {
                let mut text = self.inputs[active].clone();
                if (active != 1 && active != 4) || is_ascii_digit(c) {
                    text.push(c);
                    proof {
                        let before = self@.inputs[active as int];
                        if active == 1 || active == 4 {
                            assert forall|i: int| 0 <= i < text@.len() implies is_digit(
                                #[trigger] text@[i],
                            ) by {
                                if i < before.len() {
                                    assert(is_digit(before[i]));
                                }
                            }
                        }
                    }
                }
                self.edit(text);
                WizardStep::Continue
            },
            WizardKey::Backspace => {
                let mut text = self.inputs[active].clone();
                let _ = text.pop();
                proof {
                    let before = self@.inputs[active as int];
                    if active == 1 || active == 4 {
                        assert forall|i: int| 0 <= i < text@.len() implies is_digit(
                            #[trigger] text@[i],
                        ) by {
                            assert(is_digit(before[i]));
                        }
                    }
                }
                self.edit(text);
                WizardStep::Continue
            },
            WizardKey::Up => {
                if active > 0 {
                    self.active = active - 1;
                }
                self.error_msg = None;
                WizardStep::Continue
            },
            WizardKey::Down => {
                if active < FIELD_COUNT - 1 {
                    self.active = active + 1;
                }
                self.error_msg = None;
                WizardStep::Continue
            },
            WizardKey::Enter => {
                if active < FIELD_COUNT - 1 {
                    self.active = active + 1;
                    self.error_msg = None;
                    return WizardStep::Continue;
                }
                let port = match parse_number(self.inputs[1].as_str(), 0xFFFF) {
                    Some(port) => port as u16,
                    None => {
                        self.error_msg = Some(String::from_str("Port must be a number 0–65535"));
                        return WizardStep::Continue;
                    },
                };
                let refresh_interval = match parse_number(
                    self.inputs[4].as_str(),
                    0xFFFF_FFFF_FFFF_FFFF,
                ) {
                    Some(secs) => secs,
                    None => {
                        self.error_msg = Some(
                            String::from_str("Refresh interval must be a number"),
                        );
                        return WizardStep::Continue;
                    },
                };
                WizardStep::Finished(self.build(port, refresh_interval))
            },
            WizardKey::Esc => WizardStep::Aborted,
            WizardKey::Other => WizardStep::Continue,
        }
    }
}

} // verus!
