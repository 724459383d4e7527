use vstd::prelude::*;

verus! {

/// Command-line settings: where the Ollama server is and which model to use.
pub struct CliArgs {
    /// Ollama server endpoint, e.g. `http://192.168.0.50:11434`.
    pub endpoint: String,
    /// Ollama model name, e.g. `llama3.1` or `gpt-oss:20b`.
    pub model: String,
}

/// Timeout of one Ollama request, in seconds.
pub const OLLAMA_TIMEOUT_SEC: u64 = 30;

/// Interval between two clipboard polls, in milliseconds.
pub const POLL_INTERVAL_MS: u64 = 500;

/// Fewest characters a clipboard text may have to be translated.
pub const MIN_CHARS: usize = 3;

/// Most characters a clipboard text may have to be translated.
pub const MAX_CHARS: usize = 2000;

/// Title of every notification.
pub const NOTIFICATION_TITLE: &'static str = "Clip Translator";

/// How long a notification is shown, in milliseconds (the OS may ignore it).
pub const NOTIFICATION_TIMEOUT_MS: u32 = 5000;

/// The global hotkey that toggles pause and resume.
pub const TOGGLE_PAUSE_HOTKEY: &'static str = "Ctrl+Alt+P";

} // verus!
