//! The note itself: its text and the open, locked file that backs it.

use crate::file::{effect_of, lemma_rewrite_replaces_contents, rewrites_with, FileOp, FileState};
use crate::text::{
    checked_utf8, decoded, lemma_longest_valid_prefix_is_unique, valid_prefix_len, DecodeError,
};
use vstd::prelude::*;
use vstd::string::*;
use vstd::utf8::*;

verus! {

/// The text of a note that has never been saved.
pub const WELCOME_TEXT: &'static str = "Welcome to Gluey";

/// A loaded note. `H` is the handle of the backing file; the note owns it
/// for as long as it lives and never looks inside.
#[derive(Debug, Clone, PartialEq, Eq)]
pub struct Config<H> {
    /// The whole text of the note.
    pub text: String,
    /// The open file the text is stored in.
    pub config_file: H,
}

/// A note as contracts see it.
pub struct ConfigView<H> {
    /// The characters of the text.
    pub text: Seq<char>,
    /// The handle of the backing file.
    pub config_file: H,
}

impl<H> View for Config<H> {
    type V = ConfigView<H>;

    open spec fn view(&self) -> ConfigView<H> {
        ConfigView { text: self.text@, config_file: self.config_file }
    }
}

impl<H> Config<H> {
    /// A fresh note over a file that holds nothing yet.
    pub fn new(config_file: H) -> (config: Self)
        ensures
            config@ == (ConfigView { text: WELCOME_TEXT@, config_file }),
    {
        Config { text: WELCOME_TEXT.to_owned(), config_file }
    }

    /// The bytes to store for this note: the UTF-8 encoding of its text.
    pub fn serialize(&self) -> (bytes: Vec<u8>)
        ensures
            bytes@ == encode_utf8(self@.text),
    {
        self.text.as_str().as_bytes_vec()
    }

    /// The note that `data` stores, backed by `file`. Fails, and lets go of
    /// `file`, exactly when `data` is not valid UTF-8.
    pub fn deserialize(data: &[u8], file: H) -> (r: Result<Self, DecodeError>)
        ensures
            match decoded(data@) {
                Ok(text) => r matches Ok(config) && config@ == (ConfigView {
                    text,
                    config_file: file,
                }),
                Err(e) => r == Err::<Self, DecodeError>(e),
            },
    {
        match checked_utf8(data) {
            Ok(text) => {
                proof {
                    encode_utf8_decode_utf8(text@);
                }
                Ok(Config { text: text.to_owned(), config_file: file })
            },
            Err(valid_up_to) => {
                proof {
                    lemma_longest_valid_prefix_is_unique(
                        data@,
                        valid_up_to as int,
                        valid_prefix_len(data@),
                    );
                }
                Err(DecodeError { valid_up_to })
            },
        }
    }

    /// What to do to the backing file to store this note: rewind, empty the
    /// file, write the encoded text. Carried out in order on any file, in
    /// any state, the three steps leave exactly the encoded text in it.
    pub fn save(&self) -> (plan: Vec<FileOp>)
        ensures
            rewrites_with(plan@, encode_utf8(self@.text)),
            forall|before: FileState| #[trigger]
                effect_of(plan@, before) == (FileState {
                    contents: encode_utf8(self@.text),
                    cursor: encode_utf8(self@.text).len(),
                }),
    {
        let mut plan: Vec<FileOp> = Vec::new();
        plan.push(FileOp::SeekStart(0));
        plan.push(FileOp::SetLen(0));
        plan.push(FileOp::WriteAll(self.serialize()));
        proof {
            assert forall|before: FileState| #[trigger]
                effect_of(plan@, before) == (FileState {
                    contents: encode_utf8(self@.text),
                    cursor: encode_utf8(self@.text).len(),
                }) by {
                lemma_rewrite_replaces_contents(plan@, encode_utf8(self@.text), before);
            }
        }
        plan
    }
}

} // verus!
