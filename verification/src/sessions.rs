//! A narration project's session: the paragraph position, the project
//! locations, the chosen audio devices, and how the text is gathered
//! into chunks.
//!
//! The session is plain data; reading and writing it to disk is the
//! caller's business.  Paths are carried as strings joined with `/`.

use vstd::prelude::*;

use crate::devices::{AudioInput, AudioOutput};

verus! {

/// The text viewer's font preference.
#[derive(Clone, Copy, Debug, PartialEq, Eq, Structural)]
pub struct Font {
    pub size: u32,
}

/// One project's session.
#[derive(Clone, Debug, PartialEq, Eq)]
pub struct Session {
    pub paragraph_num: usize,
    pub project_file_name: String,
    pub project_output_directory: String,
    pub audio_input: AudioInput,
    pub audio_output: AudioOutput,
    pub gathering_choice: String,
    pub gathering_amount: usize,
    pub gathering_delimiters: String,
}

/// The path of a project's session file under the data directory:
/// `<data_dir>/narrative_director/projects/<project>/session.json`.
pub open spec fn spec_session_path(data_dir: Seq<char>, project_name: Seq<char>) -> Seq<char> {
    data_dir + "/narrative_director/projects/"@ + project_name + "/session.json"@
}

/// Builds the session-file path for a project named after the loaded
/// text file, under the given data directory.
pub fn get_session_path_from_textfile(data_dir: &str, project_name: &str) -> (r: String)
    ensures
        r@ == spec_session_path(data_dir@, project_name@),
{
    let mut path = String::from_str(data_dir);
    path.append("/narrative_director/projects/");
    path.append(project_name);
    path.append("/session.json");
    path
}

impl Session {
    /// A fresh session for a project: paragraph zero, default devices,
    /// and the default gathering of four sentences split at `.?!`.
    pub fn new(project_name: String, project_directory: String) -> (r: Session)
        ensures
            r.paragraph_num == 0,
            r.project_file_name == project_name,
            r.project_output_directory == project_directory,
            r.audio_input.input_device_name@ == "default"@,
            r.audio_input.sample_rate == 44100,
            r.audio_input.channels == 1,
            r.audio_output.output_device_name@ == "default"@,
            r.gathering_choice@ == "Sentences"@,
            r.gathering_amount == 4,
            r.gathering_delimiters@ == ".?!"@,
    {
        Session {
            paragraph_num: 0,
            project_file_name: project_name,
            project_output_directory: project_directory,
            audio_input: AudioInput::new(),
            audio_output: AudioOutput::new(),
            gathering_choice: String::from_str("Sentences"),
            gathering_amount: 4,
            gathering_delimiters: String::from_str(".?!"),
        }
    }

    /// Where this session is stored under the given data directory.
    pub fn get_session_path(&self, data_dir: &str) -> (r: String)
        ensures
            r@ == spec_session_path(data_dir@, self.project_file_name@),
    {
        get_session_path_from_textfile(data_dir, self.project_file_name.as_str())
    }

    pub fn set_paragraph_num(&mut self, paragraph_num: usize)
        ensures
            *final(self) == (Session { paragraph_num, ..*old(self) }),
    {
        self.paragraph_num = paragraph_num;
    }

    pub fn paragraph_num(&self) -> (r: usize)
        ensures
            r == self.paragraph_num,
    {
        self.paragraph_num
    }

    pub fn set_project_directory(&mut self, new_directory: String)
        ensures
            *final(self) == (Session { project_output_directory: new_directory, ..*old(self) }),
    {
        self.project_output_directory = new_directory;
    }

    pub fn project_directory(&self) -> (r: String)
        ensures
            r == self.project_output_directory,
    {
        self.project_output_directory.clone()
    }

    pub fn audio_output(&self) -> (r: &AudioOutput)
        ensures
            r == self.audio_output,
    {
        &self.audio_output
    }

    pub fn audio_output_mut(&mut self) -> (r: &mut AudioOutput)
        ensures
            *r == old(self).audio_output,
            *final(self) == (Session { audio_output: *final(r), ..*old(self) }),
    {
        &mut self.audio_output
    }

    pub fn audio_input(&self) -> (r: &AudioInput)
        ensures
            r == self.audio_input,
    {
        &self.audio_input
    }

    pub fn audio_input_mut(&mut self) -> (r: &mut AudioInput)
        ensures
            *r == old(self).audio_input,
            *final(self) == (Session { audio_input: *final(r), ..*old(self) }),
    {
        &mut self.audio_input
    }

    pub fn gathering_choice(&self) -> (r: String)
        ensures
            r == self.gathering_choice,
    {
        self.gathering_choice.clone()
    }

    pub fn set_gathering_choice(&mut self, gathering_choice: &str)
        ensures
            final(self).gathering_choice@ == gathering_choice@,
            *final(self) == (Session {
                gathering_choice: final(self).gathering_choice,
                ..*old(self)
            }),
    {
        self.gathering_choice = String::from_str(gathering_choice);
    }

    pub fn gathering_amount(&self) -> (r: usize)
        ensures
            r == self.gathering_amount,
    {
        self.gathering_amount
    }

    pub fn set_gathering_amount(&mut self, amount: usize)
        ensures
            *final(self) == (Session { gathering_amount: amount, ..*old(self) }),
    {
        self.gathering_amount = amount;
    }

    pub fn gathering_delimiters(&self) -> (r: String)
        ensures
            r == self.gathering_delimiters,
    {
        self.gathering_delimiters.clone()
    }

    pub fn set_gathering_delimiters(&mut self, delimiters: &str)
        ensures
            final(self).gathering_delimiters@ == delimiters@,
            *final(self) == (Session {
                gathering_delimiters: final(self).gathering_delimiters,
                ..*old(self)
            }),
    {
        self.gathering_delimiters = String::from_str(delimiters);
    }
}

} // verus!
