//! The standalone paragraph grabber: the same chunking as
//! [`crate::chunks`], fixed to English delimiters and four sentences to
//! a paragraph, with a cursor that walks the chunks back and forth.

use vstd::prelude::*;

use crate::chunks::{spec_chunks, LangDelimiters, ParagraphRetriever};

verus! {

/// The chunks the grabber owes for a text: English sentence endings,
/// four sentences to a paragraph.
pub open spec fn spec_english_chunks(text: Seq<char>) -> Seq<Seq<char>> {
    spec_chunks(text, crate::chunks::spec_delims(LangDelimiters::English), 4)
}

/// A paragraph reader that remembers which paragraph it stands on.
pub struct EnglishParagraphRetriever {
    /// The cursor: the number of the current paragraph.
    pub current_paragraph_num: usize,
    /// The chunks of the most recently loaded text.
    pub paragraphs: Vec<String>,
}

impl EnglishParagraphRetriever {
    /// A grabber standing on paragraph zero with nothing loaded.
    pub fn new() -> (r: EnglishParagraphRetriever)
        ensures
            r.current_paragraph_num == 0,
            r.paragraphs@ =~= Seq::<String>::empty(),
    {
        EnglishParagraphRetriever { current_paragraph_num: 0, paragraphs: Vec::new() }
    }

    /// Splits `text` into paragraphs of four sentences each and keeps
    /// them; returns how many were parsed.  The cursor stays put.
    pub fn load_chunks(&mut self, text: &str) -> (r: u32)
        requires
            text@.len() <= 0xffff_ffff,
        ensures
            final(self).paragraphs@.map_values(|p: String| p@) == spec_english_chunks(text@),
            r as nat == final(self).paragraphs@.len(),
            final(self).current_paragraph_num == old(self).current_paragraph_num,
    {
        let mut reader = ParagraphRetriever::new();
        let count = reader.load_chunks(text);
        self.paragraphs = reader.paragraphs;
        count
    }

    /// Steps the cursor forward and returns the paragraph there, or
    /// `None`, cursor unmoved, when already at the last one.
    pub fn get_next_chunk(&mut self) -> (r: Option<&String>)
        ensures
            final(self).paragraphs == old(self).paragraphs,
            match r {
                Some(p) => old(self).current_paragraph_num + 1 < old(self).paragraphs@.len()
                    && final(self).current_paragraph_num == old(self).current_paragraph_num + 1
                    && *p == old(self).paragraphs@[final(self).current_paragraph_num as int],
                None => old(self).current_paragraph_num + 1 >= old(self).paragraphs@.len()
                    && final(self).current_paragraph_num == old(self).current_paragraph_num,
            },
    {
        if self.paragraphs.len() == 0 || self.current_paragraph_num >= self.paragraphs.len() - 1 {
            return None;
        }
        self.current_paragraph_num = self.current_paragraph_num + 1;
        Some(&self.paragraphs[self.current_paragraph_num])
    }

    /// Steps the cursor backward and returns the paragraph there, or
    /// `None`, cursor unmoved, when already at the first one.
    pub fn get_prev_chunk(&mut self) -> (r: Option<&String>)
        ensures
            final(self).paragraphs == old(self).paragraphs,
            match r {
                Some(p) => {
                    &&& old(self).current_paragraph_num >= 1
                    &&& final(self).current_paragraph_num == old(self).current_paragraph_num - 1
                    &&& *p == old(self).paragraphs@[final(self).current_paragraph_num as int]
                },
                None => {
                    ||| (old(self).current_paragraph_num == 0 && final(self).current_paragraph_num
                        == 0)
                    ||| (old(self).current_paragraph_num >= 1 && final(self).current_paragraph_num
                        == old(self).current_paragraph_num - 1 && final(self).current_paragraph_num
                        >= old(self).paragraphs@.len())
                },
            },
    {
        if self.current_paragraph_num == 0 {
            return None;
        }
        self.current_paragraph_num = self.current_paragraph_num - 1;
        if self.current_paragraph_num < self.paragraphs.len() {
            Some(&self.paragraphs[self.current_paragraph_num])
        } else {
            None
        }
    }

    /// Moves the cursor to the given paragraph and returns it, or
    /// `None`, cursor unmoved, when there is no such paragraph.
    pub fn get_chunk(&mut self, chunk_num: usize) -> (r: Option<&String>)
        ensures
            final(self).paragraphs == old(self).paragraphs,
            match r {
                Some(p) => {
                    &&& chunk_num < old(self).paragraphs@.len()
                    &&& final(self).current_paragraph_num == chunk_num
                    &&& *p == old(self).paragraphs@[chunk_num as int]
                },
                None => chunk_num >= old(self).paragraphs@.len() && final(
                    self).current_paragraph_num == old(self).current_paragraph_num,
            },
    {
        if chunk_num >= self.paragraphs.len() {
            return None;
        }
        self.current_paragraph_num = chunk_num;
        Some(&self.paragraphs[chunk_num])
    }
}

} // verus!
