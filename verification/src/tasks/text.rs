use vstd::prelude::*;

verus! {

/// `String::push` appends the character to the end of the string.
pub assume_specification[ String::push ](s: &mut String, ch: char)
    ensures
        final(s)@ == old(s)@.push(ch),
;

/// `String::pop` takes the last character off the string and returns it; on
/// an empty string it returns `None` and changes nothing.
pub assume_specification[ String::pop ](s: &mut String) -> (r: Option<char>)
    ensures
        old(s)@.len() == 0 ==> r is None && final(s)@ == old(s)@,
        old(s)@.len() > 0 ==> r == Some(old(s)@.last()) && final(s)@ == old(s)@.drop_last(),
;

/// A text field after one more character has been typed at its end.
pub open spec fn typed(text: Seq<char>, c: char) -> Seq<char> {
    text.push(c)
}

/// A text field after its last character has been erased; an empty field
/// stays empty.
pub open spec fn erased(text: Seq<char>) -> Seq<char> {
    if text.len() == 0 {
        text
    } else {
        text.drop_last()
    }
}

/// Erasing undoes typing: a character typed and then erased leaves the text
/// as it was.
pub proof fn lemma_erase_undoes_typing(text: Seq<char>, c: char)
    ensures
        erased(typed(text, c)) == text,
{
    assert(text.push(c).drop_last() =~= text);
}

} // verus!
