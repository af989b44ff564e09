//! The application state machine: one synchronous transition per event, both
//! derived fields recomputed from the entry on every edit, and a clipboard
//! effect handed back to the driver instead of performed here.

use vstd::prelude::*;
use crate::hashing::digest_hex_of;
use crate::hashing::hash;
use crate::validation::validate;
use crate::validation::xpub_valid;

verus! {

/// An event from the presentation surface.
pub enum Message {
    /// The entry field now holds this full text.
    InputChanged(String),
    /// The copy button was pressed.
    CopyRequested,
}

/// An effect the driver is asked to perform; the machine itself does no I/O.
pub enum Effect {
    /// Write this text to the system clipboard, fire and forget.
    ClipboardWrite(String),
}

/// The application state: the raw entry and the two fields derived from it.
pub struct AppState {
    /// The extended public key entry, exactly as typed.
    pub input: String,
    /// Whether the entry is a structurally valid extended public key.
    pub is_valid: bool,
    /// The digest text of the entry, present exactly when the entry is valid.
    pub hash_result: Option<String>,
}

impl AppState {
    /// Both derived fields agree with the entry they were computed from: the
    /// flag is the entry's verdict, and the digest text is present exactly
    /// when the flag holds and is then the entry's digest.
    pub open spec fn wf(self) -> bool {
        &&& self.is_valid == xpub_valid(self.input@)
        &&& (self.hash_result is Some <==> self.is_valid)
        &&& (self.hash_result matches Some(h) ==> h@ == digest_hex_of(self.input@))
    }

    /// The state at process start: empty entry, invalid, no digest.
    pub fn new() -> (s: AppState)
        ensures
            s.wf(),
            s.input@.len() == 0,
            !s.is_valid,
            s.hash_result is None,
    {
        let input = String::new();
        let is_valid = validate(input.as_str());
        AppState { input, is_valid, hash_result: None }
    }

    /// One synchronous transition. An edit replaces the entry wholesale and
    /// recomputes both derived fields; a copy request changes nothing and
    /// yields exactly one clipboard write when a digest is present, none
    /// otherwise.
    pub fn update(&mut self, message: Message) -> (effect: Option<Effect>)
        requires
            old(self).wf(),
        ensures
            final(self).wf(),
            (match message {
                Message::InputChanged(value) => {
                    &&& final(self).input@ == value@
                    &&& final(self).is_valid == xpub_valid(value@)
                    &&& (final(self).hash_result is Some <==> xpub_valid(value@))
                    &&& (final(self).hash_result matches Some(h) ==> h@ == digest_hex_of(value@))
                    &&& (value@.len() == 0 ==> !final(self).is_valid)
                    &&& (value@.len() == 0 ==> final(self).hash_result is None)
                    &&& effect is None
                },
                Message::CopyRequested => {
                    &&& *final(self) == *old(self)
                    &&& (old(self).hash_result matches Some(h) ==> (effect matches Some(e)
                        && e matches Effect::ClipboardWrite(t) && t@ == h@))
                    &&& (old(self).hash_result is None ==> effect is None)
                },
            }),
    {
        match message {
            Message::InputChanged(value) => {
                let is_valid = validate(value.as_str());
                let hash_result = if is_valid {
                    Some(hash(value.as_str()))
                } else {
                    None
                };
                self.input = value;
                self.is_valid = is_valid;
                self.hash_result = hash_result;
                None
            },
            Message::CopyRequested => {
                match &self.hash_result {
                    Some(h) => Some(Effect::ClipboardWrite(h.clone())),
                    None => None,
                }
            },
        }
    }
}

/// Law: in every well-formed state, a digest is present exactly when the
/// entry is a valid extended public key.
pub proof fn lemma_digest_presence(s: AppState)
    requires
        s.wf(),
    ensures
        s.hash_result is Some <==> xpub_valid(s.input@),
{
}

} // verus!
