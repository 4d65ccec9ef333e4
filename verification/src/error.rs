//! What can go wrong, and the message shown for each failure.

use crate::status::{status_display, HttpStatus};
use vstd::prelude::*;
use vstd::string::StringExecFns;

verus! {

/// The two kinds of animal the gallery shows.
#[derive(Clone, Copy, Debug, PartialEq, Eq, Structural)]
pub enum AnimalKind {
    Dog,
    Cat,
}

/// Why a fetch gave no records.
#[derive(Debug, PartialEq, Eq)]
pub enum FetchError {
    /// The network failed, before a reply came or while the reply's body
    /// was read; the text says why.
    Transport(String),
    /// The service replied with a status outside 200 to 299.
    ApiStatus(HttpStatus),
    /// The reply's body arrived whole and was not a list of records; the
    /// text says why.
    Decode(String),
}

/// A favorites list could not be reached because its lock is poisoned.
#[derive(Debug, PartialEq, Eq)]
pub struct LockError {
    pub detail: String,
}

/// The API key of one kind of animal is not configured.
#[derive(Debug, PartialEq, Eq)]
pub struct ConfigError {
    pub kind: AnimalKind,
}

/// The message for a status that is not a success, given the status as text.
pub open spec fn status_message_text(status: Seq<char>) -> Seq<char> {
    "API-Anfrage fehlgeschlagen mit Status: "@ + status
}

/// The message of a fetch error.
pub open spec fn fetch_message(e: FetchError) -> Seq<char> {
    match e {
        FetchError::Transport(detail) => "Fehler beim Senden der API-Anfrage: "@ + detail@,
        FetchError::ApiStatus(status) => status_message_text(status_display(status.value())),
        FetchError::Decode(detail) => "Fehler beim Parsen der JSON-Antwort: "@ + detail@,
    }
}

/// The message of a missing key.
pub open spec fn config_message(kind: AnimalKind) -> Seq<char> {
    match kind {
        AnimalKind::Dog =>
            "DOG_API_KEY muss in der .env-Datei gesetzt sein oder als Umgebungsvariable existieren"@,
        AnimalKind::Cat =>
            "CAT_API_KEY muss in der .env-Datei gesetzt sein oder als Umgebungsvariable existieren"@,
    }
}

/// The message for a status that is not a success: a fixed opening, then
/// the status as text.
pub fn status_message(status: &str) -> (m: String)
    ensures
        m@ == status_message_text(status@),
{
    String::from_str("API-Anfrage fehlgeschlagen mit Status: ").concat(status)
}

impl FetchError {
    /// The message shown for this error.
    pub fn message(&self) -> (m: String)
        ensures
            m@ == fetch_message(*self),
    {
        match self {
            FetchError::Transport(detail) => String::from_str(
                "Fehler beim Senden der API-Anfrage: ",
            ).concat(detail.as_str()),
            FetchError::ApiStatus(status) => {
                let text = status.text();
                status_message(text.as_str())
            },
            FetchError::Decode(detail) => String::from_str(
                "Fehler beim Parsen der JSON-Antwort: ",
            ).concat(detail.as_str()),
        }
    }
}

impl LockError {
    /// The message shown for this error: a fixed opening, then the detail.
    pub fn message(&self) -> (m: String)
        ensures
            m@ == "Fehler beim Sperren des Mutex: "@ + self.detail@,
    {
        String::from_str("Fehler beim Sperren des Mutex: ").concat(self.detail.as_str())
    }
}

impl ConfigError {
    /// The message shown for this error; it names the variable that is
    /// missing.
    pub fn message(&self) -> (m: String)
        ensures
            m@ == config_message(self.kind),
    {
        match self.kind {
            AnimalKind::Dog => String::from_str(
                "DOG_API_KEY muss in der .env-Datei gesetzt sein oder als Umgebungsvariable existieren",
            ),
            AnimalKind::Cat => String::from_str(
                "CAT_API_KEY muss in der .env-Datei gesetzt sein oder als Umgebungsvariable existieren",
            ),
        }
    }
}

} // verus!
