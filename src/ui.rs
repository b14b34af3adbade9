use crate::encryptor::Encryptor;
use vstd::prelude::*;

verus! {

/// What the window reports to the application state.
#[derive(Debug, Clone)]
pub enum Message {
    Exit,
    Encrypt,
    KeywordChanged(String),
    InputChanged(String),
    OutputChanged(String),
    FileCancelled,
    OpenFile,
    SaveFile,
    Completed,
}

/// What the window is to do after a message has been handled.
pub enum Command {
    Nothing,
    CloseWindow,
    RunEncryption(Encryptor),
    PickSourceFile,
    PickDestinationFile,
}

/// The state behind the window: the chosen paths, the password, and where
/// the run stands.
#[derive(Debug)]
pub struct App {
    pub input_file: String,
    pub output_file: String,
    pub keyword: String,
    pub is_running: bool,
    pub is_completed: bool,
}

impl Default for App {
    fn default() -> (r: Self)
        ensures
            r.input_file@.len() == 0,
            r.output_file@.len() == 0,
            r.keyword@.len() == 0,
            !r.is_running,
            !r.is_completed,
    {
        App {
            input_file: String::new(),
            output_file: String::new(),
            keyword: String::new(),
            is_running: false,
            is_completed: false,
        }
    }
}

impl App {
    /// Both paths and the password have been given.
    pub open spec fn ready(&self) -> bool {
        self.input_file@.len() > 0 && self.output_file@.len() > 0 && self.keyword@.len() > 0
    }

    /// Both paths and the password have been given.
    pub fn is_ready(&self) -> (r: bool)
        ensures
            r == self.ready(),
    {
        !self.input_file.as_str().is_empty() && !self.output_file.as_str().is_empty()
            && !self.keyword.as_str().is_empty()
    }

    /// The inputs can still be changed: no run has started.
    pub fn controls_enabled(&self) -> (r: bool)
        ensures
            r == (!self.is_running && !self.is_completed),
    {
        !self.is_running && !self.is_completed
    }

    /// A run may be started now.
    pub fn can_start(&self) -> (r: bool)
        ensures
            r == (self.ready() && !self.is_running && !self.is_completed),
    {
        self.is_ready() && self.controls_enabled()
    }

    /// Handles one message and says what the window is to do next.
    pub fn update(&mut self, message: Message) -> (r: Command)
        ensures
            match message {
                Message::Exit => r is CloseWindow && *final(self) == *old(self),
                Message::Encrypt => r == Command::RunEncryption(
                    Encryptor {
                        input_file: old(self).input_file,
                        output_file: old(self).output_file,
                        keyword: old(self).keyword,
                    },
                ) && *final(self) == (App { is_running: true, ..*old(self) }),
                Message::KeywordChanged(k) => r is Nothing && *final(self) == (App {
                    keyword: k,
                    ..*old(self)
                }),
                Message::InputChanged(f) => r is Nothing && *final(self) == (App {
                    input_file: f,
                    ..*old(self)
                }),
                Message::OutputChanged(f) => r is Nothing && *final(self) == (App {
                    output_file: f,
                    ..*old(self)
                }),
                Message::FileCancelled => r is Nothing && *final(self) == *old(self),
                Message::OpenFile => r is PickSourceFile && *final(self) == *old(self),
                Message::SaveFile => r is PickDestinationFile && *final(self) == *old(self),
                Message::Completed => r is Nothing && *final(self) == (App {
                    is_running: false,
                    is_completed: true,
                    ..*old(self)
                }),
            },
    {
        match message {
            Message::Exit => Command::CloseWindow,
            Message::Encrypt => {
                self.is_running = true;
                Command::RunEncryption(
                    Encryptor::new(
                        self.input_file.clone(),
                        self.output_file.clone(),
                        self.keyword.clone(),
                    ),
                )
            },
            Message::KeywordChanged(k) => {
                self.keyword = k;
                Command::Nothing
            },
            Message::InputChanged(f) => {
                self.input_file = f;
                Command::Nothing
            },
            Message::OutputChanged(f) => {
                self.output_file = f;
                Command::Nothing
            },
            Message::FileCancelled => Command::Nothing,
            Message::OpenFile => Command::PickSourceFile,
            Message::SaveFile => Command::PickDestinationFile,
            Message::Completed => {
                self.is_running = false;
                self.is_completed = true;
                Command::Nothing
            },
        }
    }
}

} // verus!
