//! Gathering a text into paragraph chunks.
//!
//! A chunk is cut directly after every `amount`-th sentence delimiter;
//! whatever is left at the end of the text, delimited or not, becomes a
//! final chunk of its own.  The chunks are contiguous: concatenated in
//! order they give back the text.

use vstd::prelude::*;

verus! {

/// The delimiter sets, by language.
#[derive(Clone, Copy, Debug, PartialEq, Eq, Structural)]
pub enum LangDelimiters {
    English,
}

/// The characters that end a sentence in this language.
pub open spec fn spec_delims(language: LangDelimiters) -> Seq<char> {
    seq!['.', '?', '!']
}

impl LangDelimiters {
    /// The characters that end a sentence in this language.
    pub fn value(&self) -> (r: Vec<char>)
        ensures
            r@ == spec_delims(*self),
    {
        let mut v: Vec<char> = Vec::new();
        v.push('.');
        v.push('?');
        v.push('!');
        proof {
            assert(v@ =~= spec_delims(*self));
        }
        v
    }
}

/// The length of the first chunk of `text`: up to and including the
/// `remaining`-th delimiter, or all of `text` if it holds fewer.
pub open spec fn first_chunk_len(text: Seq<char>, delims: Seq<char>, remaining: nat) -> nat
    decreases text.len(),
{
    if text.len() == 0 {
        0
    } else if delims.contains(text[0]) {
        if remaining <= 1 {
            1
        } else {
            1 + first_chunk_len(text.drop_first(), delims, (remaining - 1) as nat)
        }
    } else {
        1 + first_chunk_len(text.drop_first(), delims, remaining)
    }
}

proof fn lemma_first_chunk_len_bounds(text: Seq<char>, delims: Seq<char>, remaining: nat)
    ensures
        first_chunk_len(text, delims, remaining) <= text.len(),
        text.len() > 0 ==> 1 <= first_chunk_len(text, delims, remaining),
    decreases text.len(),
{
    if text.len() > 0 {
        lemma_first_chunk_len_bounds(text.drop_first(), delims, (remaining - 1) as nat);
        lemma_first_chunk_len_bounds(text.drop_first(), delims, remaining);
    }
}

/// The chunks of `text`: cut after every `amount`-th delimiter, with
/// the remainder as a final chunk.
pub open spec fn spec_chunks(text: Seq<char>, delims: Seq<char>, amount: nat) -> Seq<Seq<char>>
    decreases text.len(),
    via spec_chunks_decreases
{
    if text.len() == 0 {
        Seq::<Seq<char>>::empty()
    } else {
        let l = first_chunk_len(text, delims, amount) as int;
        seq![text.take(l)] + spec_chunks(text.skip(l), delims, amount)
    }
}

#[via_fn]
proof fn spec_chunks_decreases(text: Seq<char>, delims: Seq<char>, amount: nat) {
    if text.len() > 0 {
        lemma_first_chunk_len_bounds(text, delims, amount);
    }
}

/// Every chunk holds at least one character, so there are never more
/// chunks than characters.
pub proof fn lemma_chunk_count(text: Seq<char>, delims: Seq<char>, amount: nat)
    ensures
        spec_chunks(text, delims, amount).len() <= text.len(),
    decreases text.len(),
{
    if text.len() > 0 {
        lemma_first_chunk_len_bounds(text, delims, amount);
        let l = first_chunk_len(text, delims, amount) as int;
        lemma_chunk_count(text.skip(l), delims, amount);
    }
}

/// The paragraph reader: splits a text into chunks of `num_sentences`
/// sentences each and hands them out by number.
pub struct ParagraphRetriever {
    /// Which delimiter set sentences end with.
    pub language: LangDelimiters,
    /// How many sentences make one paragraph chunk.
    pub num_sentences: u8,
    /// The chunks of the most recently loaded text.
    pub paragraphs: Vec<String>,
}

impl ParagraphRetriever {
    /// A reader with the defaults: English delimiters, four sentences
    /// to a paragraph, nothing loaded.
    pub fn new() -> (r: ParagraphRetriever)
        ensures
            r.language == LangDelimiters::English,
            r.num_sentences == 4,
            r.paragraphs@ =~= Seq::<String>::empty(),
    {
        ParagraphRetriever {
            language: LangDelimiters::English,
            num_sentences: 4,
            paragraphs: Vec::new(),
        }
    }

    /// Splits `text` into paragraph chunks and keeps them; returns how
    /// many chunks were parsed.
    pub fn load_chunks(&mut self, text: &str) -> (r: u32)
        requires
            old(self).num_sentences >= 1,
            text@.len() <= 0xffff_ffff,
        ensures
            final(self).paragraphs@.map_values(|p: String| p@) == spec_chunks(
                text@,
                spec_delims(old(self).language),
                old(self).num_sentences as nat,
            ),
            r as nat == final(self).paragraphs@.len(),
            final(self).language == old(self).language,
            final(self).num_sentences == old(self).num_sentences,
    {
        let ghost delims = spec_delims(self.language);
        let ghost amount_g = self.num_sentences as nat;
        let amount: u8 = self.num_sentences;
        let n = text.unicode_len();
        let mut paragraphs: Vec<String> = Vec::new();
        let mut start: usize = 0;
        let mut count: u8 = 0;
        let mut i: usize = 0;
        proof {
            assert(paragraphs@.map_values(|p: String| p@) =~= Seq::<Seq<char>>::empty());
            assert(text@.skip(0) =~= text@);
        }
        while i < n
            invariant
                0 <= start <= i <= n,
                n == text@.len(),
                amount == old(self).num_sentences,
                amount_g == amount as nat,
                delims == spec_delims(old(self).language),
                1 <= amount,
                count < amount,
                spec_chunks(text@, delims, amount_g) == paragraphs@.map_values(|p: String| p@)
                    + spec_chunks(text@.skip(start as int), delims, amount_g),
                first_chunk_len(text@.skip(start as int), delims, amount_g) == (i - start)
                    + first_chunk_len(text@.skip(i as int), delims, (amount - count) as nat),
            decreases n - i,
        {
            let c = text.get_char(i);
            let is_delim = c == '.' || c == '?' || c == '!';
            proof {
                assert(delims[0] == '.' && delims[1] == '?' && delims[2] == '!');
                assert(is_delim ==> delims.contains(c));
                assert(delims.contains(c) ==> is_delim) by {
                    if delims.contains(c) {
                        let k = choose|k: int| 0 <= k < delims.len() && delims[k] == c;
                        assert(k == 0 || k == 1 || k == 2);
                    }
                }
                assert(text@.skip(i as int)[0] == text@[i as int]);
                assert(text@.skip(i as int).drop_first() =~= text@.skip(i as int + 1));
            }
            if is_delim && count + 1 == amount {
                let piece = text.substring_char(start, i + 1);
                let ghost done = paragraphs@.map_values(|p: String| p@);
                paragraphs.push(String::from_str(piece));
                proof {
                    let l = first_chunk_len(text@.skip(start as int), delims, amount_g) as int;
                    assert(first_chunk_len(text@.skip(i as int), delims, (amount - count) as nat)
                        == 1);
                    assert(l == i + 1 - start);
                    assert(text@.skip(start as int).take(l) =~= text@.subrange(
                        start as int,
                        i + 1,
                    ));
                    assert(text@.skip(start as int).skip(l) =~= text@.skip(i + 1));
                    assert(spec_chunks(text@.skip(start as int), delims, amount_g) == seq![
                        piece@,
                    ] + spec_chunks(text@.skip(i + 1), delims, amount_g));
                    assert(paragraphs@.map_values(|p: String| p@) =~= done.push(piece@));
                    assert(done + (seq![piece@] + spec_chunks(text@.skip(i + 1), delims, amount_g))
                        =~= done.push(piece@) + spec_chunks(text@.skip(i + 1), delims, amount_g));
                    assert(first_chunk_len(text@.skip(i + 1), delims, amount_g) == ((i + 1) - (i
                        + 1)) + first_chunk_len(text@.skip(i + 1), delims, (amount - 0) as nat));
                }
                start = i + 1;
                count = 0;
            } else if is_delim {
                proof {
                    assert(first_chunk_len(text@.skip(i as int), delims, (amount - count) as nat)
                        == 1 + first_chunk_len(
                        text@.skip(i as int + 1),
                        delims,
                        (amount - (count + 1)) as nat,
                    ));
                }
                count = count + 1;
            } else {
                proof {
                    assert(first_chunk_len(text@.skip(i as int), delims, (amount - count) as nat)
                        == 1 + first_chunk_len(
                        text@.skip(i as int + 1),
                        delims,
                        (amount - count) as nat,
                    ));
                }
            }
            i = i + 1;
        }
        proof {
            assert(text@.skip(n as int) =~= Seq::<char>::empty());
            assert(first_chunk_len(Seq::<char>::empty(), delims, (amount - count) as nat) == 0);
        }
        if start < n {
            let piece = text.substring_char(start, n);
            let ghost done = paragraphs@.map_values(|p: String| p@);
            paragraphs.push(String::from_str(piece));
            proof {
                let l = first_chunk_len(text@.skip(start as int), delims, amount_g) as int;
                assert(l == n - start);
                assert(text@.skip(start as int).take(l) =~= text@.subrange(start as int, n as int));
                assert(text@.skip(start as int).skip(l) =~= Seq::<char>::empty());
                assert(spec_chunks(text@.skip(start as int), delims, amount_g) == seq![piece@]
                    + spec_chunks(Seq::<char>::empty(), delims, amount_g));
                assert(paragraphs@.map_values(|p: String| p@) =~= done.push(piece@));
                assert(done + (seq![piece@] + Seq::<Seq<char>>::empty()) =~= done.push(piece@));
            }
        } else {
            proof {
                assert(spec_chunks(text@.skip(start as int), delims, amount_g)
                    =~= Seq::<Seq<char>>::empty());
                assert(paragraphs@.map_values(|p: String| p@) + Seq::<Seq<char>>::empty()
                    =~= paragraphs@.map_values(|p: String| p@));
            }
        }
        proof {
            lemma_chunk_count(text@, delims, amount_g);
            assert(paragraphs@.map_values(|p: String| p@).len() == paragraphs@.len());
        }
        let r = paragraphs.len() as u32;
        self.paragraphs = paragraphs;
        r
    }

    /// The chunk with this number, if it exists.
    pub fn get_chunk(&self, chunk_num: usize) -> (r: Option<&String>)
        ensures
            match r {
                Some(p) => chunk_num < self.paragraphs@.len() && *p == self.paragraphs@[chunk_num as int],
                None => chunk_num >= self.paragraphs@.len(),
            },
    {
        if chunk_num >= self.paragraphs.len() {
            return None;
        }
        Some(&self.paragraphs[chunk_num])
    }

    /// How many chunks the loaded text has.
    pub fn len(&self) -> (r: usize)
        ensures
            r == self.paragraphs@.len(),
    {
        self.paragraphs.len()
    }
}


/// The chunks are contiguous: concatenated in order they give back
/// exactly the text they were cut from.
pub proof fn lemma_chunks_concat(text: Seq<char>, delims: Seq<char>, amount: nat)
    ensures
        spec_chunks(text, delims, amount).flatten() == text,
    decreases text.len(),
{
    if text.len() == 0 {
        assert(spec_chunks(text, delims, amount).flatten() =~= text);
    } else {
        lemma_first_chunk_len_bounds(text, delims, amount);
        let l = first_chunk_len(text, delims, amount) as int;
        let chunks = spec_chunks(text, delims, amount);
        let rest = spec_chunks(text.skip(l), delims, amount);
        lemma_chunks_concat(text.skip(l), delims, amount);
        assert(chunks.first() == text.take(l));
        assert(chunks.drop_first() =~= rest);
        assert(chunks.flatten() == text.take(l) + rest.flatten());
        assert(text.take(l) + text.skip(l) =~= text);
    }
}

} // verus!
