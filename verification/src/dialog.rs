//! The choice of the file to open, from what the file dialog answered.

use vstd::prelude::*;

verus! {

/// What the file dialog answered.
#[derive(Debug)]
pub enum Response {
    /// One file was chosen.
    Okay(String),
    /// Several files were chosen.
    OkayMultiple(Vec<String>),
    /// The dialog was dismissed.
    Cancel,
}

/// Why no file is opened.
#[derive(Debug)]
pub enum OpenDialogError {
    /// The dialog was dismissed, or it gave an empty list of files.
    NoFiles,
    /// The dialog itself failed, with this message.
    SystemError(String),
}

/// The file that an answer chooses: the file where there is one, the last
/// one where there are several, none where the dialog was dismissed.
pub open spec fn chosen(response: Response) -> Option<String> {
    match response {
        Response::Okay(file_path) => Some(file_path),
        Response::OkayMultiple(files) => if files@.len() > 0 {
            Some(files@.last())
        } else {
            None
        },
        Response::Cancel => None,
    }
}

/// The path of the file to open, from the dialog's answer or failure.
pub fn open_file(answer: Result<Response, String>) -> (outcome: Result<String, OpenDialogError>)
    ensures
        outcome == (match answer {
            Err(message) => Err::<String, OpenDialogError>(OpenDialogError::SystemError(message)),
            Ok(response) => match chosen(response) {
                Some(file_path) => Ok(file_path),
                None => Err(OpenDialogError::NoFiles),
            },
        }),
{
    match answer {
        Err(message) => Err(OpenDialogError::SystemError(message)),
        Ok(Response::Okay(file_path)) => Ok(file_path),
        Ok(Response::OkayMultiple(mut files)) => match files.pop() {
            None => Err(OpenDialogError::NoFiles),
            Some(file) => Ok(file),
        },
        Ok(Response::Cancel) => Err(OpenDialogError::NoFiles),
    }
}

impl OpenDialogError {
    /// The error in words.
    pub fn message(&self) -> (text: String)
        ensures
            text@ == (match *self {
                OpenDialogError::NoFiles => "got no files to open"@,
                OpenDialogError::SystemError(message) => message@,
            }),
    {
        match self {
            OpenDialogError::NoFiles => "got no files to open".to_owned(),
            OpenDialogError::SystemError(message) => message.clone(),
        }
    }
}

} // verus!
