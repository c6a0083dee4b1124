//! Text specimens.

use crate::codec::{decodable, decode, decoded_text};
use crate::specimen::{FileRead, FileSpecimen, LoadError, Specimen};
use vstd::prelude::*;
use vstd::utf8::*;

verus! {

/// The decoded text of a file.
#[derive(Debug)]
pub struct TextSpecimen {
    contents: String,
}

impl View for TextSpecimen {
    type V = Seq<char>;

    closed spec fn view(&self) -> Seq<char> {
        self.contents@
    }
}

impl TextSpecimen {
    /// A specimen of the given text.
    pub fn new(data: &str) -> (r: Self)
        ensures
            r@ == data@,
    {
        TextSpecimen { contents: data.to_owned() }
    }

    /// The text of the specimen, as a string of its own.
    pub fn to_string(&self) -> (r: String)
        ensures
            r@ == self@,
    {
        self.contents.as_str().to_owned()
    }
}

impl Specimen for TextSpecimen {
    open spec fn bytes(&self) -> Seq<u8> {
        encode_utf8(self@)
    }

    fn data(&self) -> (r: &[u8]) {
        self.contents.as_str().as_bytes()
    }
}

impl FileSpecimen for TextSpecimen {
    open spec fn accepts(bytes: Seq<u8>) -> bool {
        decodable(bytes)
    }

    open spec fn holds(&self, bytes: Seq<u8>) -> bool {
        self@ == decoded_text(bytes)
    }

    fn read_file(&mut self, file: &FileRead) -> (r: Result<(), LoadError>) {
        match file {
            Ok(bytes) => match decode(bytes.as_slice()) {
                Some(text) => {
                    self.contents = text;
                    Ok(())
                },
                None => Err(LoadError::Undecodable),
            },
            Err(e) => Err(*e),
        }
    }
}

impl Default for TextSpecimen {
    fn default() -> (r: Self)
        ensures
            r@ == Seq::<char>::empty(),
    {
        TextSpecimen { contents: String::new() }
    }
}

impl core::ops::Deref for TextSpecimen {
    type Target = str;

    fn deref(&self) -> (r: &str)
        ensures
            r@ == self@,
    {
        self.contents.as_str()
    }
}

} // verus!
