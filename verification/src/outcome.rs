use vstd::prelude::*;

verus! {

/// Why a run failed.
#[derive(Clone, Copy, Debug, PartialEq, Eq, Structural)]
pub enum ErrorKind {
    /// No settings path was given and none could be derived, or no file is there.
    ConfigurationNotFound,
    /// The settings file could not be read as settings, or lacks a required field.
    ConfigurationInvalid,
    /// The markup file could not be read.
    SourceUnreadable,
    /// The page could not be written to disk.
    LocalWriteFailed,
    /// The upload failed.
    RemoteUploadFailed,
    /// The driver reported something that the run was not waiting for.
    UnexpectedEvent,
}

/// What one run ends with.
#[derive(Clone, Debug, PartialEq, Eq)]
pub enum Outcome {
    /// The page was written to `path`.
    Created { path: String },
    /// A file was at `path` already and was left as it is.
    AlreadyExists { path: String },
    /// The page was uploaded and can be read at `url`.
    Uploaded { url: String },
    /// The run was given up.
    Failed { kind: ErrorKind, detail: String },
}

/// An outcome as texts.
pub enum OutcomeTexts {
    Created { path: Seq<char> },
    AlreadyExists { path: Seq<char> },
    Uploaded { url: Seq<char> },
    Failed { kind: ErrorKind, detail: Seq<char> },
}

impl View for Outcome {
    type V = OutcomeTexts;

    open spec fn view(&self) -> OutcomeTexts {
        match *self {
            Outcome::Created { path } => OutcomeTexts::Created { path: path@ },
            Outcome::AlreadyExists { path } => OutcomeTexts::AlreadyExists { path: path@ },
            Outcome::Uploaded { url } => OutcomeTexts::Uploaded { url: url@ },
            Outcome::Failed { kind, detail } => OutcomeTexts::Failed { kind, detail: detail@ },
        }
    }
}

/// Whether the run counts as a success. Leaving an existing file alone does.
pub open spec fn is_success(outcome: OutcomeTexts) -> bool {
    !(outcome is Failed)
}

/// The line that tells the operator how the run ended.
pub open spec fn report_text(outcome: OutcomeTexts) -> Seq<char> {
    match outcome {
        OutcomeTexts::Created { path } => "Local HTML file created: "@ + path,
        OutcomeTexts::AlreadyExists { path } => "Local file '"@ + path
            + "' already exists. Not overwriting."@,
        OutcomeTexts::Uploaded { url } => "File uploaded successfully: "@ + url,
        OutcomeTexts::Failed { kind, detail } => detail,
    }
}

impl Outcome {
    /// Whether the run counts as a success.
    pub fn succeeded(&self) -> (ok: bool)
        ensures
            ok == is_success(self@),
    {
        match self {
            Outcome::Failed { .. } => false,
            _ => true,
        }
    }

    /// The line that tells the operator how the run ended.
    pub fn report(&self) -> (line: String)
        ensures
            line@ == report_text(self@),
    {
        match self {
            Outcome::Created { path } => {
                let mut line = String::from_str("Local HTML file created: ");
                line.append(path.as_str());
                line
            },
            Outcome::AlreadyExists { path } => {
                let mut line = String::from_str("Local file '");
                line.append(path.as_str());
                line.append("' already exists. Not overwriting.");
                line
            },
            Outcome::Uploaded { url } => {
                let mut line = String::from_str("File uploaded successfully: ");
                line.append(url.as_str());
                line
            },
            Outcome::Failed { kind, detail } => detail.clone(),
        }
    }
}

} // verus!
