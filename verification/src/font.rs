//! Fonts: a glyph for each character that can be drawn.

use crate::glyph::Glyph;
use vstd::prelude::*;

verus! {

/// A table from characters to glyphs. A character has at most one glyph; one
/// that has none is left out when text is drawn.
#[derive(Clone, Debug)]
pub struct Font {
    codepoints: Vec<char>,
    glyphs: Vec<Glyph>,
}

impl Font {
    /// Whether the table holds one well-formed glyph for each of its
    /// characters, and no character twice. Every font that this crate hands
    /// out is so.
    pub closed spec fn wf(self) -> bool {
        &&& self.codepoints.len() == self.glyphs.len()
        &&& forall|i: int, j: int|
            0 <= i < j < self.codepoints.len() ==> self.codepoints@[i] != self.codepoints@[j]
        &&& forall|i: int| 0 <= i < self.glyphs.len() ==> (#[trigger] self.glyphs@[i]).wf()
    }

    /// Where `ch` stands in the table.
    spec fn position(self, ch: char) -> int {
        choose|i: int| 0 <= i < self.codepoints.len() && self.codepoints@[i] == ch
    }

    /// The entry at `i` is the one for its character.
    proof fn entry(self, i: int)
        requires
            self.wf(),
            0 <= i < self.codepoints.len(),
        ensures
            self@.contains_key(self.codepoints@[i]),
            self@[self.codepoints@[i]] == self.glyphs@[i],
            self.position(self.codepoints@[i]) == i,
    {
        let ch = self.codepoints@[i];
        let found = self.position(ch);
        assert(0 <= found < self.codepoints.len() && self.codepoints@[found] == ch);
        assert(found == i) by {
            if found < i {
                assert(self.codepoints@[found] != self.codepoints@[i]);
            } else if i < found {
                assert(self.codepoints@[i] != self.codepoints@[found]);
            }
        }
    }

    /// A font without glyphs.
    pub fn new() -> (font: Font)
        ensures
            font.wf(),
            font@ == Map::<char, Glyph>::empty(),
    {
        let font = Font { codepoints: Vec::new(), glyphs: Vec::new() };
        assert(font@ =~= Map::<char, Glyph>::empty());
        font
    }

    /// The number of characters that have a glyph.
    pub fn len(&self) -> (n: usize)
        requires
            self.wf(),
        ensures
            n == self@.dom().len(),
            self@.dom().finite(),
    {
        proof {
            self.domain_size();
        }
        self.codepoints.len()
    }

    /// The characters of the table are as many as its entries.
    proof fn domain_size(self)
        requires
            self.wf(),
        ensures
            self@.dom().finite(),
            self@.dom().len() == self.codepoints.len(),
    {
        assert(self.codepoints@.no_duplicates());
        self.codepoints@.unique_seq_to_set();
        assert(self@.dom() =~= self.codepoints@.to_set());
    }

    /// Where `ch` stands in the table, if it has a glyph.
    fn find(&self, ch: char) -> (at: Option<usize>)
        requires
            self.wf(),
        ensures
            at is Some <==> self@.contains_key(ch),
            at matches Some(i) ==> i < self.codepoints.len() && self.codepoints@[i as int] == ch,
    {
        let mut i: usize = 0;
        while i < self.codepoints.len()
            invariant
                i <= self.codepoints.len(),
                forall|k: int| 0 <= k < i ==> self.codepoints@[k] != ch,
            decreases self.codepoints.len() - i,
        {
            if self.codepoints[i] == ch {
                return Some(i);
            }
            i += 1;
        }
        None
    }

    /// The glyph of `ch`, or `None` when the font has none for it.
    pub fn glyph(&self, ch: char) -> (found: Option<&Glyph>)
        requires
            self.wf(),
        ensures
            found is Some <==> self@.contains_key(ch),
            found matches Some(glyph) ==> *glyph == self@[ch] && glyph.wf(),
    {
        match self.find(ch) {
            Some(i) => {
                proof {
                    self.entry(i as int);
                }
                Some(&self.glyphs[i])
            },
            None => None,
        }
    }

    /// Gives `ch` the glyph `glyph`, and hands back the glyph that `ch` had
    /// before, if any. Every other character keeps its glyph.
    pub fn insert(&mut self, ch: char, glyph: Glyph) -> (before: Option<Glyph>)
        requires
            old(self).wf(),
            glyph.wf(),
        ensures
            final(self).wf(),
            final(self)@ == old(self)@.insert(ch, glyph),
            before is Some <==> old(self)@.contains_key(ch),
            before matches Some(b) ==> b == old(self)@[ch],
    {
        match self.find(ch) {
            Some(i) => {
                proof {
                    self.entry(i as int);
                }
                let mut slot = glyph;
                self.glyphs.set_and_swap(i, &mut slot);
                proof {
                    assert(self.wf());
                    assert forall|other: char| #[trigger]
                        self@.contains_key(other) implies self@[other] == old(self)@.insert(
                        ch,
                        glyph,
                    )[other] by {
                        let at = self.position(other);
                        self.entry(at);
                        old(self).entry(at);
                    }
                    assert(self@ =~= old(self)@.insert(ch, glyph));
                }
                Some(slot)
            },
            None => {
                self.codepoints.push(ch);
                self.glyphs.push(glyph);
                proof {
                    assert(self.wf());
                    assert forall|other: char| #[trigger]
                        self@.contains_key(other) implies self@[other] == old(self)@.insert(
                        ch,
                        glyph,
                    )[other] by {
                        let at = self.position(other);
                        self.entry(at);
                        if at < old(self).codepoints.len() {
                            old(self).entry(at);
                        }
                    }
                    let count = old(self).codepoints.len() as int;
                    assert forall|other: char|
                        self@.contains_key(other) == #[trigger] old(self)@.insert(
                            ch,
                            glyph,
                        ).contains_key(other) by {
                        if old(self).codepoints@.contains(other) {
                            let at = old(self).position(other);
                            assert(self.codepoints@[at] == other);
                        }
                        if other == ch {
                            assert(self.codepoints@[count] == other);
                        }
                        if self.codepoints@.contains(other) {
                            let at = self.position(other);
                            if at < count {
                                assert(old(self).codepoints@[at] == other);
                            }
                        }
                    }
                    assert(self@ =~= old(self)@.insert(ch, glyph));
                }
                None
            },
        }
    }
}

impl View for Font {
    type V = Map<char, Glyph>;

    /// The table as a map.
    closed spec fn view(&self) -> Map<char, Glyph> {
        Map::new(
            |ch: char| self.codepoints@.contains(ch),
            |ch: char| self.glyphs@[self.position(ch)],
        )
    }
}

} // verus!
