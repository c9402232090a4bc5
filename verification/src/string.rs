use vstd::prelude::*;

verus! {

/// A string of UTF-16 code units, in which surrogates may stand unpaired.
#[derive(Clone, Debug, PartialEq, Eq, Hash)]
pub struct JsString {
    pub units: Vec<u16>,
}

impl View for JsString {
    type V = Seq<u16>;

    open spec fn view(&self) -> Seq<u16> {
        self.units@
    }
}

/// The code units of one character: the character itself, or a surrogate pair.
pub open spec fn char_units(c: char) -> Seq<u16> {
    let code = c as int;
    if code < 0x1_0000 {
        seq![code as u16]
    } else {
        seq![
            (0xD800 + (code - 0x1_0000) / 0x400) as u16,
            (0xDC00 + (code - 0x1_0000) % 0x400) as u16,
        ]
    }
}

/// The code units of a text, character by character.
pub open spec fn text_units(text: Seq<char>) -> Seq<u16>
    decreases text.len(),
{
    if text.len() == 0 {
        Seq::empty()
    } else {
        text_units(text.drop_last()) + char_units(text.last())
    }
}

impl JsString {
    /// Encodes a text.
    pub fn from_text(text: &str) -> (string: Self)
        ensures
            string@ == text_units(text@),
    {
        let mut units: Vec<u16> = Vec::new();
        let len: usize = text.unicode_len();
        let mut i: usize = 0;
        while i < len
            invariant
                i <= len == text@.len(),
                units@ == text_units(text@.take(i as int)),
            decreases len - i,
        {
            let code: u32 = text.get_char(i) as u32;
            proof {
                assert(text@.take(i + 1).drop_last() =~= text@.take(i as int));
            }
            if code < 0x1_0000 {
                units.push(code as u16);
            } else {
                units.push((0xD800 + (code - 0x1_0000) / 0x400) as u16);
                units.push((0xDC00 + (code - 0x1_0000) % 0x400) as u16);
            }
            i = i + 1;
            assert(units@ =~= text_units(text@.take(i as int)));
        }
        assert(text@.take(len as int) =~= text@);
        JsString { units }
    }

    /// Tells whether two strings have the same code units.
    pub fn same(&self, other: &JsString) -> (result: bool)
        ensures
            result == (self@ == other@),
    {
        if self.units.len() != other.units.len() {
            return false;
        }
        let mut i: usize = 0;
        while i < self.units.len()
            invariant
                i <= self@.len() == other@.len(),
                forall|j: int| 0 <= j < i ==> self@[j] == other@[j],
            decreases self@.len() - i,
        {
            if self.units[i] != other.units[i] {
                return false;
            }
            i = i + 1;
        }
        assert(self@ =~= other@);
        true
    }
}

} // verus!
